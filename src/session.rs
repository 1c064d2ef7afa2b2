use vstd::prelude::*;

use crate::compose::{raster_source, raster_source_text, svg_document, vector_document, RenderConfig};
use crate::export::{ExportArtifact, ExportFormat, ExportRequest, RasterJob, RasterView};
use crate::path::{render, render_view, PathView, VectorPath};
use crate::symbol::{encode, qr_symbol_low, EncodeError, BORDER};

verus! {

/// Where a session stands.
#[derive(Debug, Clone, Copy, PartialEq, Eq, Structural)]
pub enum Phase {
    /// No text.
    Idle,
    /// Text without a path generated for it.
    Editing,
    /// A path generated for the current text is available.
    Generated,
}

/// Ghost picture of a session.
pub struct SessionView {
    pub text: Seq<char>,
    pub last_path: Option<PathView>,
    pub foreground: Seq<char>,
    pub background: Seq<char>,
    pub transparent: bool,
}

pub open spec fn phase_of(v: SessionView) -> Phase {
    if v.text.len() == 0 {
        Phase::Idle
    } else if v.last_path is Some {
        Phase::Generated
    } else {
        Phase::Editing
    }
}

/// `post` is `pre` after its text was set to `text`: the text changes and
/// any generated path is dropped, whatever the text was before.
pub open spec fn set_text_step(pre: SessionView, text: Seq<char>, post: SessionView) -> bool {
    post == SessionView { text, last_path: None, ..pre }
}

/// `post` is `pre` after generation returned `r`: on success the path of the
/// symbol for the current text, with the standard border; on failure nothing
/// changes.
pub open spec fn generate_step(pre: SessionView, post: SessionView, r: Result<(), EncodeError>) -> bool {
    match qr_symbol_low(pre.text) {
        Some(g) => r == Ok::<(), EncodeError>(()) && post == SessionView {
            last_path: Some(render_view(g, BORDER as int)),
            ..pre
        },
        None => r == Err::<(), EncodeError>(EncodeError::CapacityExceeded) && post == pre,
    }
}

/// The vector document of a session that holds a path.
pub open spec fn session_document(v: SessionView) -> Seq<char> {
    svg_document(v.last_path->Some_0, v.foreground, v.background, v.transparent)
}

/// Generating twice in a row, with no edit between, gives the same outcome
/// and leaves the same path as generating once.
pub proof fn generate_is_idempotent(
    a: SessionView,
    b: SessionView,
    c: SessionView,
    r1: Result<(), EncodeError>,
    r2: Result<(), EncodeError>,
)
    requires
        generate_step(a, b, r1),
        generate_step(b, c, r2),
    ensures
        c == b,
        c.last_path == b.last_path,
        r1 == r2,
{
}

/// Setting the text, even to the text already there, drops the generated
/// path and leaves the session out of the generated phase.
pub proof fn set_text_invalidates(a: SessionView, text: Seq<char>, b: SessionView)
    requires
        set_text_step(a, text, b),
    ensures
        b.last_path is None,
        phase_of(b) != Phase::Generated,
        text.len() == 0 ==> phase_of(b) == Phase::Idle,
        text.len() > 0 ==> phase_of(b) == Phase::Editing,
{
}

/// A failed generation leaves the session exactly as it was.
pub proof fn failed_generate_keeps_state(a: SessionView, b: SessionView, r: Result<(), EncodeError>)
    requires
        generate_step(a, b, r),
        r is Err,
    ensures
        b == a,
{
}

/// The state of one interactive session: the text being edited, the path last
/// generated for it, and the colours applied when composing.
pub struct Session {
    text: String,
    last_path: Option<VectorPath>,
    config: RenderConfig,
}

impl View for Session {
    type V = SessionView;

    closed spec fn view(&self) -> SessionView {
        SessionView {
            text: self.text@,
            last_path: match self.last_path {
                Some(p) => Some(p@),
                None => None,
            },
            foreground: self.config.foreground@,
            background: self.config.background@,
            transparent: self.config.transparent_background,
        }
    }
}

impl Session {
    /// A fresh session: no text, no path, black on opaque white.
    pub fn new() -> (r: Session)
        ensures
            r@.text.len() == 0,
            r@.last_path is None,
            r@.foreground == "#000000"@,
            r@.background == "#FFFFFF"@,
            !r@.transparent,
    {
        Session { text: String::new(), last_path: None, config: RenderConfig::new() }
    }

    /// The current phase.
    pub fn phase(&self) -> (r: Phase)
        ensures
            r == phase_of(self@),
    {
        if self.text.as_str().is_empty() {
            Phase::Idle
        } else if self.last_path.is_some() {
            Phase::Generated
        } else {
            Phase::Editing
        }
    }

    /// The text being edited.
    pub fn text(&self) -> (r: &String)
        ensures
            r@ == self@.text,
    {
        &self.text
    }

    /// The colours and background choice.
    pub fn config(&self) -> (r: &RenderConfig)
        ensures
            r.foreground@ == self@.foreground,
            r.background@ == self@.background,
            r.transparent_background == self@.transparent,
    {
        &self.config
    }

    /// The path generated for the current text, if any.
    pub fn last_path(&self) -> (r: Option<&VectorPath>)
        ensures
            match r {
                Some(p) => self@.last_path == Some(p@),
                None => self@.last_path is None,
            },
    {
        match &self.last_path {
            Some(p) => Some(p),
            None => None,
        }
    }

    /// Replaces the text; the generated path, if any, is dropped.
    pub fn set_text(&mut self, text: String)
        ensures
            set_text_step(old(self)@, text@, final(self)@),
    {
        self.text = text;
        self.last_path = None;
    }

    /// Sets the colour of the dark modules.
    pub fn set_foreground(&mut self, color: String)
        ensures
            final(self)@ == (SessionView { foreground: color@, ..old(self)@ }),
    {
        self.config.foreground = color;
    }

    /// Sets the background colour.
    pub fn set_background(&mut self, color: String)
        ensures
            final(self)@ == (SessionView { background: color@, ..old(self)@ }),
    {
        self.config.background = color;
    }

    /// Chooses whether the background is left transparent.
    pub fn set_transparent(&mut self, transparent: bool)
        ensures
            final(self)@ == (SessionView { transparent, ..old(self)@ }),
    {
        self.config.transparent_background = transparent;
    }

    /// Encodes the current text and keeps the path of its symbol. When the
    /// text does not fit, the session is left exactly as it was.
    pub fn generate(&mut self) -> (r: Result<(), EncodeError>)
        requires
            old(self)@.text.len() > 0,
        ensures
            generate_step(old(self)@, final(self)@, r),
            old(self)@.text.len() <= 738 ==> r is Ok,
    {
        match encode(self.text.as_str()) {
            Ok(grid) => {
                self.last_path = Some(render(&grid, BORDER));
                Ok(())
            },
            Err(e) => Err(e),
        }
    }

    /// The vector document of the generated path under the current colours,
    /// or `None` before generation.
    pub fn document(&self) -> (r: Option<String>)
        ensures
            match r {
                Some(d) => self@.last_path is Some && d@ == session_document(self@),
                None => self@.last_path is None,
            },
    {
        match &self.last_path {
            Some(p) => Some(vector_document(p, &self.config)),
            None => None,
        }
    }

    /// Composes the generated path for export: a vector document is ready at
    /// once; a raster export waits for its document to be decoded and drawn.
    pub fn export_as(&self, format: ExportFormat) -> (r: ExportRequest)
        requires
            self@.last_path is Some,
        ensures
            match format {
                ExportFormat::Vector => r matches ExportRequest::Ready(
                    ExportArtifact::Vector { document },
                ) && document@ == session_document(self@),
                ExportFormat::Raster => r matches ExportRequest::Decode(job)
                    && job.source_view() == raster_source_text(session_document(self@))
                    && job.stage_view() == RasterView::Pending,
            },
    {
        let p = self.last_path.as_ref().unwrap();
        let document = vector_document(p, &self.config);
        match format {
            ExportFormat::Vector => ExportRequest::Ready(ExportArtifact::Vector { document }),
            ExportFormat::Raster => ExportRequest::Decode(RasterJob::new(raster_source(&document))),
        }
    }
}

} // verus!
