use vstd::prelude::*;

use crate::compose::RASTER_SIDE;

verus! {

/// The two output formats.
#[derive(Debug, Clone, Copy, PartialEq, Eq, Structural)]
pub enum ExportFormat {
    Vector,
    Raster,
}

/// Why an export was abandoned. None of them touches the session.
#[derive(Debug, Clone, Copy, PartialEq, Eq, Structural)]
pub enum ExportError {
    /// No drawing surface could be had for the raster.
    SurfaceCreationFailed,
    /// The vector document could not be decoded as an image.
    ImageDecodeFailed,
    /// The platform offers no way to save a file.
    SaveTriggerUnavailable,
}

/// The fixed file name each format is saved under.
pub open spec fn file_name_text(format: ExportFormat) -> Seq<char> {
    match format {
        ExportFormat::Vector => "qrcode.svg"@,
        ExportFormat::Raster => "qrcode.png"@,
    }
}

/// The file name an export in `format` is saved under.
pub fn file_name(format: ExportFormat) -> (r: &'static str)
    ensures
        r@ == file_name_text(format),
{
    match format {
        ExportFormat::Vector => "qrcode.svg",
        ExportFormat::Raster => "qrcode.png",
    }
}

/// A composed output, ready to be saved.
pub enum ExportArtifact {
    /// A standalone SVG document.
    Vector { document: String },
    /// An encoded bitmap (as the data URL the surface gave) and its size.
    Raster { document: String, width: u32, height: u32 },
}

impl ExportArtifact {
    pub open spec fn format_of(&self) -> ExportFormat {
        match self {
            ExportArtifact::Vector { .. } => ExportFormat::Vector,
            ExportArtifact::Raster { .. } => ExportFormat::Raster,
        }
    }

    pub open spec fn document_of(&self) -> Seq<char> {
        match self {
            ExportArtifact::Vector { document } => document@,
            ExportArtifact::Raster { document, .. } => document@,
        }
    }

    /// The format this artifact is in.
    pub fn format(&self) -> (r: ExportFormat)
        ensures
            r == self.format_of(),
    {
        match self {
            ExportArtifact::Vector { .. } => ExportFormat::Vector,
            ExportArtifact::Raster { .. } => ExportFormat::Raster,
        }
    }

    /// The name this artifact is saved under.
    pub fn file_name(&self) -> (r: &'static str)
        ensures
            r@ == file_name_text(self.format_of()),
    {
        file_name(self.format())
    }

    /// The bytes handed to the save primitive, as text.
    pub fn document(&self) -> (r: &String)
        ensures
            r@ == self.document_of(),
    {
        match self {
            ExportArtifact::Vector { document } => document,
            ExportArtifact::Raster { document, .. } => document,
        }
    }
}

/// Where a raster export stands.
pub enum RasterStage {
    /// The image decode was requested and has not signalled yet.
    Pending,
    /// The decoded image was drawn; the surface gave this encoded bitmap.
    Done(String),
    /// The decode or the surface failed.
    Failed(ExportError),
}

/// Ghost picture of a raster export.
pub enum RasterView {
    Pending,
    Done(Seq<char>),
    Failed(ExportError),
}

/// One raster export: the image source to decode and, once the decode has
/// signalled, its outcome. Each export gets a fresh job; a job settles once
/// and later signals are ignored, so a stale job never changes a newer one.
pub struct RasterJob {
    source: String,
    stage: RasterStage,
}

impl RasterJob {
    pub closed spec fn source_view(&self) -> Seq<char> {
        self.source@
    }

    pub closed spec fn stage_view(&self) -> RasterView {
        match self.stage {
            RasterStage::Pending => RasterView::Pending,
            RasterStage::Done(s) => RasterView::Done(s@),
            RasterStage::Failed(e) => RasterView::Failed(e),
        }
    }

    /// A job that waits to decode `source`.
    pub fn new(source: String) -> (r: RasterJob)
        ensures
            r.source_view() == source@,
            r.stage_view() == RasterView::Pending,
    {
        RasterJob { source, stage: RasterStage::Pending }
    }

    /// The image source to decode.
    pub fn source(&self) -> (r: &String)
        ensures
            r@ == self.source_view(),
    {
        &self.source
    }

    /// Whether the job still waits for its decode signal.
    pub fn is_pending(&self) -> (r: bool)
        ensures
            r == (self.stage_view() == RasterView::Pending),
    {
        match self.stage {
            RasterStage::Pending => true,
            _ => false,
        }
    }

    /// The decode signalled and the surface gave `encoded`. Settles a
    /// pending job; a settled one is left as it was.
    pub fn complete(&mut self, encoded: String)
        ensures
            final(self).source_view() == old(self).source_view(),
            old(self).stage_view() == RasterView::Pending ==> final(self).stage_view()
                == RasterView::Done(encoded@),
            old(self).stage_view() != RasterView::Pending ==> final(self).stage_view()
                == old(self).stage_view(),
    {
        if self.is_pending() {
            self.stage = RasterStage::Done(encoded);
        }
    }

    /// The decode or the surface failed with `e`. Settles a pending job; a
    /// settled one is left as it was.
    pub fn fail(&mut self, e: ExportError)
        ensures
            final(self).source_view() == old(self).source_view(),
            old(self).stage_view() == RasterView::Pending ==> final(self).stage_view()
                == RasterView::Failed(e),
            old(self).stage_view() != RasterView::Pending ==> final(self).stage_view()
                == old(self).stage_view(),
    {
        if self.is_pending() {
            self.stage = RasterStage::Failed(e);
        }
    }

    /// The finished bitmap, `RASTER_SIDE` pixels square; `None` while the
    /// decode has not signalled, and after a failure.
    pub fn artifact(&self) -> (r: Option<ExportArtifact>)
        ensures
            match self.stage_view() {
                RasterView::Done(s) => r matches Some(ExportArtifact::Raster { document, width, height })
                    && document@ == s && width == RASTER_SIDE && height == RASTER_SIDE,
                _ => r is None,
            },
    {
        match &self.stage {
            RasterStage::Done(s) => Some(
                ExportArtifact::Raster { document: s.clone(), width: RASTER_SIDE, height: RASTER_SIDE },
            ),
            _ => None,
        }
    }

    /// The error the job failed with, if it did.
    pub fn error(&self) -> (r: Option<ExportError>)
        ensures
            match self.stage_view() {
                RasterView::Failed(e) => r == Some(e),
                _ => r is None,
            },
    {
        match &self.stage {
            RasterStage::Failed(e) => Some(*e),
            _ => None,
        }
    }
}

/// What an export asks of the platform: a vector artifact can be saved at
/// once; a raster one first needs its image decoded and drawn.
pub enum ExportRequest {
    Ready(ExportArtifact),
    Decode(RasterJob),
}

} // verus!
