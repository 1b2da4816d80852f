//! Why a chart could not be produced.
use vstd::prelude::*;
use vstd::string::*;

verus! {

/// Why a chart could not be produced.
#[derive(Clone, Copy, Debug, PartialEq, Eq, Structural)]
pub enum ChartError {
    /// The layout cannot be drawn: an empty drawing area, a negative margin,
    /// or a canvas too large for the pixel type.
    InvalidGeometry,
    /// The output could not be written.
    IoFailure,
    /// The chart could not be turned into an image.
    EncodingFailure,
}

/// How the drawing of a composed chart ended.
#[derive(Clone, Copy, Debug, PartialEq, Eq, Structural)]
pub enum RenderOutcome {
    /// The image was written.
    Written,
    /// The chart was refused as one that cannot be laid out.
    LayoutRejected,
    /// The output could not be opened or written.
    WriteFailed,
    /// The chart could not be turned into an image.
    EncodeFailed,
}

impl ChartError {
    /// A sentence for the user.
    pub fn message(&self) -> (text: String)
        ensures
            text@ == (match *self {
                ChartError::InvalidGeometry => "the chart layout cannot be drawn"@,
                ChartError::IoFailure => "the chart could not be written"@,
                ChartError::EncodingFailure => "the chart could not be encoded"@,
            }),
    {
        match self {
            ChartError::InvalidGeometry => String::from_str("the chart layout cannot be drawn"),
            ChartError::IoFailure => String::from_str("the chart could not be written"),
            ChartError::EncodingFailure => String::from_str("the chart could not be encoded"),
        }
    }
}

/// What the caller is told after the drawing: success only where the image
/// was written, and each failure under its own error. No failure is passed
/// over.
pub fn conclude(outcome: RenderOutcome) -> (r: Result<(), ChartError>)
    ensures
        r is Ok <==> outcome == RenderOutcome::Written,
        outcome == RenderOutcome::LayoutRejected ==> r == Err::<(), ChartError>(
            ChartError::InvalidGeometry,
        ),
        outcome == RenderOutcome::WriteFailed ==> r == Err::<(), ChartError>(ChartError::IoFailure),
        outcome == RenderOutcome::EncodeFailed ==> r == Err::<(), ChartError>(
            ChartError::EncodingFailure,
        ),
{
    match outcome {
        RenderOutcome::Written => Ok(()),
        RenderOutcome::LayoutRejected => Err(ChartError::InvalidGeometry),
        RenderOutcome::WriteFailed => Err(ChartError::IoFailure),
        RenderOutcome::EncodeFailed => Err(ChartError::EncodingFailure),
    }
}

} // verus!
