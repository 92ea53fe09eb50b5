//! Pixel formats, and the planes that frames of a format are processed in.

use vstd::prelude::*;

verus! {

/// The pixel formats that are told apart. Any other is known by FFmpeg's number for it.
#[derive(Debug, Clone, Copy, PartialEq, Eq, Structural)]
pub enum PixelFormat {
    NV12,
    NV21,
    P010LE,
    P016LE,
    YUV420P,
    YUVJ420P,
    YUV420P10LE,
    YUV420P16LE,
    YUV422P10LE,
    YUV444P16LE,
    YUVA444P10LE,
    RGB24,
    RGB48BE,
    Other(i32),
}

/// The format that frames are converted to when their own cannot be processed. It is not
/// subsampled, so all its planes have the size of the frame.
pub const CONVERTED_FORMAT: PixelFormat = PixelFormat::YUV444P16LE;

/// The kinds of pixels that a plane can hold: one channel or two interleaved ones, of 8 or 16
/// bits each.
#[derive(Debug, Clone, Copy, PartialEq, Eq, Structural)]
pub enum PixelKind {
    Luma8,
    Luma16,
    UV8,
    UV16,
}

/// The channels of a YUV colour that a plane holds, in the order in which it holds them.
#[derive(Debug, Clone, Copy, PartialEq, Eq, Structural)]
pub enum Channels {
    Single(usize),
    Pair(usize, usize),
}

impl View for Channels {
    type V = Seq<usize>;

    open spec fn view(&self) -> Seq<usize> {
        match *self {
            Channels::Single(channel) => seq![channel],
            Channels::Pair(first, second) => seq![first, second],
        }
    }
}

impl Channels {
    /// The channels, in order.
    pub fn to_vec(self) -> (channels: Vec<usize>)
        ensures
            channels@ == self@,
    {
        let channels: Vec<usize> = match self {
            Channels::Single(channel) => vec![channel],
            Channels::Pair(first, second) => vec![first, second],
        };
        assert(channels@ =~= self@);
        channels
    }
}

/// One plane of a format: the kind of its pixels, its index in the frame, and the channels it
/// holds.
#[derive(Debug, Clone, Copy, PartialEq, Eq, Structural)]
pub struct PlaneSpec {
    pub kind: PixelKind,
    pub index: usize,
    pub channels: Channels,
}

/// The dimensions of a plane, as a frame reports them.
#[derive(Debug, Clone, Copy, PartialEq, Eq, Structural)]
pub struct PlaneGeometry {
    pub width: u32,
    pub height: u32,
    pub stride: usize,
}

/// What a plane's processing is set up with: the plane, and its size and stride in the input
/// and in the output frame.
#[derive(Debug, Clone, Copy, PartialEq, Eq)]
pub struct PlaneSetup {
    pub plane: PlaneSpec,
    pub size: (usize, usize),
    pub stride: usize,
    pub output_size: (usize, usize),
    pub output_stride: usize,
}

/// Whether frames of a format are processed as they are.
pub open spec fn is_direct(format: PixelFormat) -> bool {
    match format {
        PixelFormat::NV12
        | PixelFormat::NV21
        | PixelFormat::YUV420P
        | PixelFormat::YUVJ420P
        | PixelFormat::P010LE
        | PixelFormat::P016LE
        | PixelFormat::YUV420P10LE
        | PixelFormat::YUV420P16LE => true,
        _ => false,
    }
}

/// The format that frames are converted to before they are processed, or `None` if they are
/// processed as they are.
pub open spec fn conversion_of(format: PixelFormat) -> Option<PixelFormat> {
    if is_direct(format) {
        None
    } else {
        Some(CONVERTED_FORMAT)
    }
}

/// The luma plane followed by one plane of interleaved chroma.
pub open spec fn interleaved_planes(
    luma: PixelKind,
    chroma: PixelKind,
    channels: Channels,
) -> Seq<PlaneSpec> {
    seq![
        PlaneSpec { kind: luma, index: 0, channels: Channels::Single(0) },
        PlaneSpec { kind: chroma, index: 1, channels },
    ]
}

/// One plane for each channel.
pub open spec fn separate_planes(kind: PixelKind) -> Seq<PlaneSpec> {
    Seq::new(
        3,
        |i: int| PlaneSpec { kind, index: i as usize, channels: Channels::Single(i as usize) },
    )
}

/// The planes that frames of a format are processed in. A format that has to be converted has
/// those of the format it is converted to.
pub open spec fn layout_of(format: PixelFormat) -> Seq<PlaneSpec> {
    match format {
        PixelFormat::NV12 => interleaved_planes(
            PixelKind::Luma8,
            PixelKind::UV8,
            Channels::Pair(1, 2),
        ),
        PixelFormat::NV21 => interleaved_planes(
            PixelKind::Luma8,
            PixelKind::UV8,
            Channels::Pair(2, 1),
        ),
        PixelFormat::P010LE | PixelFormat::P016LE => interleaved_planes(
            PixelKind::Luma16,
            PixelKind::UV16,
            Channels::Pair(1, 2),
        ),
        PixelFormat::YUV420P | PixelFormat::YUVJ420P => separate_planes(PixelKind::Luma8),
        _ => separate_planes(PixelKind::Luma16),
    }
}

/// The setup of a plane that has these dimensions in the input and in the output frame.
pub open spec fn setup_of(
    plane: PlaneSpec,
    input: PlaneGeometry,
    output: PlaneGeometry,
) -> PlaneSetup {
    PlaneSetup {
        plane,
        size: (input.width as usize, input.height as usize),
        stride: input.stride,
        output_size: (output.width as usize, output.height as usize),
        output_stride: output.stride,
    }
}

/// Whether the setups are those of the planes of a layout, in order.
pub open spec fn sets_up(setups: Seq<PlaneSetup>, layout: Seq<PlaneSpec>) -> bool {
    &&& setups.len() == layout.len()
    &&& forall|i: int| 0 <= i < layout.len() ==> (#[trigger] setups[i]).plane == layout[i]
}

/// The format that frames are converted to before they are processed, or `None` if they are
/// processed as they are.
pub fn conversion_for(format: PixelFormat) -> (target: Option<PixelFormat>)
    ensures
        target == conversion_of(format),
{
    match format {
        PixelFormat::NV12
        | PixelFormat::NV21
        | PixelFormat::YUV420P
        | PixelFormat::YUVJ420P
        | PixelFormat::P010LE
        | PixelFormat::P016LE
        | PixelFormat::YUV420P10LE
        | PixelFormat::YUV420P16LE => None,
        _ => Some(CONVERTED_FORMAT),
    }
}

/// The luma plane followed by one plane of interleaved chroma.
fn interleaved(luma: PixelKind, chroma: PixelKind, channels: Channels) -> (planes: Vec<PlaneSpec>)
    ensures
        planes@ == interleaved_planes(luma, chroma, channels),
{
    let planes: Vec<PlaneSpec> = vec![
        PlaneSpec { kind: luma, index: 0, channels: Channels::Single(0) },
        PlaneSpec { kind: chroma, index: 1, channels },
    ];
    assert(planes@ =~= interleaved_planes(luma, chroma, channels));
    planes
}

/// One plane for each channel.
fn separate(kind: PixelKind) -> (planes: Vec<PlaneSpec>)
    ensures
        planes@ == separate_planes(kind),
{
    let planes: Vec<PlaneSpec> = vec![
        PlaneSpec { kind, index: 0, channels: Channels::Single(0) },
        PlaneSpec { kind, index: 1, channels: Channels::Single(1) },
        PlaneSpec { kind, index: 2, channels: Channels::Single(2) },
    ];
    assert(planes@ =~= separate_planes(kind));
    planes
}

/// The planes that frames of a format are processed in.
pub fn plane_layout(format: PixelFormat) -> (layout: Vec<PlaneSpec>)
    ensures
        layout@ == layout_of(format),
{
    match format {
        PixelFormat::NV12 => interleaved(
            PixelKind::Luma8,
            PixelKind::UV8,
            Channels::Pair(1, 2),
        ),
        PixelFormat::NV21 => interleaved(
            PixelKind::Luma8,
            PixelKind::UV8,
            Channels::Pair(2, 1),
        ),
        PixelFormat::P010LE | PixelFormat::P016LE => interleaved(
            PixelKind::Luma16,
            PixelKind::UV16,
            Channels::Pair(1, 2),
        ),
        PixelFormat::YUV420P | PixelFormat::YUVJ420P => separate(PixelKind::Luma8),
        _ => separate(PixelKind::Luma16),
    }
}

/// The setup of a plane that has these dimensions in the input and in the output frame.
pub fn plane_setup(plane: PlaneSpec, input: PlaneGeometry, output: PlaneGeometry) -> (setup:
    PlaneSetup)
    ensures
        setup == setup_of(plane, input, output),
{
    PlaneSetup {
        plane,
        size: (input.width as usize, input.height as usize),
        stride: input.stride,
        output_size: (output.width as usize, output.height as usize),
        output_stride: output.stride,
    }
}

/// The planes of a layout stand at their own index in the frame, so the position of a plane in
/// the layout finds its data.
pub proof fn lemma_planes_stand_at_their_index(format: PixelFormat, i: int)
    requires
        0 <= i < layout_of(format).len(),
    ensures
        layout_of(format)[i].index == i,
{
}

/// The first plane of every format is the luma plane alone.
pub proof fn lemma_luma_comes_first(format: PixelFormat)
    ensures
        layout_of(format).len() > 0,
        layout_of(format)[0].channels@ == seq![0usize],
{
}

/// The channels of all planes of a layout, in order.
pub open spec fn channels_of(layout: Seq<PlaneSpec>) -> Seq<usize>
    decreases layout.len(),
{
    if layout.len() == 0 {
        Seq::empty()
    } else {
        channels_of(layout.drop_last()) + layout.last().channels@
    }
}

/// The planes of every format hold each of the three channels once: in the order Y, U, V, or
/// with the two chroma channels swapped for NV21.
pub proof fn lemma_each_channel_is_held_once(format: PixelFormat)
    ensures
        channels_of(layout_of(format)) == if format == PixelFormat::NV21 {
            seq![0usize, 2, 1]
        } else {
            seq![0usize, 1, 2]
        },
{
    reveal_with_fuel(channels_of, 4);
    let layout = layout_of(format);
    if layout.len() == 3 {
        assert(layout.drop_last().drop_last().drop_last() =~= Seq::empty());
    } else {
        assert(layout.drop_last().drop_last() =~= Seq::empty());
    }
    assert(channels_of(layout) =~= if format == PixelFormat::NV21 {
        seq![0usize, 2, 1]
    } else {
        seq![0usize, 1, 2]
    });
}

/// A plane holds as many channels as its kind of pixel has.
pub proof fn lemma_kind_fits_channels(format: PixelFormat, i: int)
    requires
        0 <= i < layout_of(format).len(),
    ensures
        layout_of(format)[i].channels@.len() == match layout_of(format)[i].kind {
            PixelKind::Luma8 | PixelKind::Luma16 => 1nat,
            PixelKind::UV8 | PixelKind::UV16 => 2nat,
        },
{
}

/// Frames that are converted are processed in the planes of the format they are converted to.
pub proof fn lemma_converted_frames_have_the_target_layout(format: PixelFormat)
    requires
        conversion_of(format) is Some,
    ensures
        layout_of(format) == layout_of(conversion_of(format)->0),
{
}

/// How the samples of a pixel format lie in memory: the bits that each takes up, whether it is
/// YUV with chroma at half the width and height and no alpha, and whether its chroma samples are
/// interleaved in one plane, and with V before U.
pub struct SampleArrangement {
    pub bits: nat,
    pub is_yuv420: bool,
    pub is_interleaved: bool,
    pub v_before_u: bool,
}

/// The arrangement of the samples of a format that is told apart. Nothing is known of how the
/// samples of any other format lie.
pub open spec fn arrangement_of(format: PixelFormat) -> Option<SampleArrangement> {
    let planar = SampleArrangement {
        bits: 16,
        is_yuv420: true,
        is_interleaved: false,
        v_before_u: false,
    };
    match format {
        PixelFormat::NV12 => Some(
            SampleArrangement { bits: 8, is_interleaved: true, ..planar },
        ),
        PixelFormat::NV21 => Some(
            SampleArrangement { bits: 8, is_interleaved: true, v_before_u: true, ..planar },
        ),
        PixelFormat::P010LE => Some(SampleArrangement { is_interleaved: true, ..planar }),
        PixelFormat::P016LE => Some(SampleArrangement { is_interleaved: true, ..planar }),
        PixelFormat::YUV420P => Some(SampleArrangement { bits: 8, ..planar }),
        PixelFormat::YUVJ420P => Some(SampleArrangement { bits: 8, ..planar }),
        PixelFormat::YUV420P10LE => Some(planar),
        PixelFormat::YUV420P16LE => Some(planar),
        PixelFormat::YUV422P10LE => Some(SampleArrangement { is_yuv420: false, ..planar }),
        PixelFormat::YUV444P16LE => Some(SampleArrangement { is_yuv420: false, ..planar }),
        PixelFormat::YUVA444P10LE => Some(SampleArrangement { is_yuv420: false, ..planar }),
        PixelFormat::RGB24 => Some(
            SampleArrangement { bits: 8, is_yuv420: false, is_interleaved: true, ..planar },
        ),
        PixelFormat::RGB48BE => Some(
            SampleArrangement { is_yuv420: false, is_interleaved: true, ..planar },
        ),
        PixelFormat::Other(_) => None,
    }
}

/// The bits that each sample of a kind of pixel takes up.
pub open spec fn sample_bits(kind: PixelKind) -> nat {
    match kind {
        PixelKind::Luma8 | PixelKind::UV8 => 8,
        PixelKind::Luma16 | PixelKind::UV16 => 16,
    }
}

/// Whether these are the planes of samples that are arranged so: Y alone in the first plane;
/// then U and V in one plane if they are interleaved, in their order, and in a plane each if
/// not; every sample of the bits that it has.
pub open spec fn arranged(layout: Seq<PlaneSpec>, samples: SampleArrangement) -> bool {
    &&& layout.len() == if samples.is_interleaved {
        2nat
    } else {
        3nat
    }
    &&& forall|i: int|
        0 <= i < layout.len() ==> {
            &&& sample_bits((#[trigger] layout[i]).kind) == samples.bits
            &&& layout[i].index == i
        }
    &&& layout[0].kind == PixelKind::Luma8 || layout[0].kind == PixelKind::Luma16
    &&& layout[0].channels == Channels::Single(0)
    &&& samples.is_interleaved ==> {
        &&& layout[1].kind == PixelKind::UV8 || layout[1].kind == PixelKind::UV16
        &&& layout[1].channels == if samples.v_before_u {
            Channels::Pair(2, 1)
        } else {
            Channels::Pair(1, 2)
        }
    }
    &&& !samples.is_interleaved ==> forall|i: int|
        1 <= i < 3 ==> {
            &&& (#[trigger] layout[i]).kind == PixelKind::Luma8 || layout[i].kind
                == PixelKind::Luma16
            &&& layout[i].channels == Channels::Single(i as usize)
        }
}

/// Frames are processed as they are in eight formats and no others; frames of every other
/// format, told apart or not, are converted, and always to planar 4:4:4 of 16 bits.
pub proof fn lemma_processed_as_is_in_eight_formats_only(
    format: PixelFormat,
    target: Option<PixelFormat>,
)
    requires
        call_ensures(conversion_for, (format,), target),
    ensures
        target is None <==> {
            ||| format == PixelFormat::NV12
            ||| format == PixelFormat::NV21
            ||| format == PixelFormat::P010LE
            ||| format == PixelFormat::P016LE
            ||| format == PixelFormat::YUV420P
            ||| format == PixelFormat::YUVJ420P
            ||| format == PixelFormat::YUV420P10LE
            ||| format == PixelFormat::YUV420P16LE
        },
        target is Some ==> target == Some(PixelFormat::YUV444P16LE),
{
}

/// Frames are processed as they are exactly if their format is known to be 4:2:0; what is
/// unknown, of other chroma, or no YUV, is converted.
pub proof fn lemma_processed_as_is_exactly_if_yuv420(
    format: PixelFormat,
    target: Option<PixelFormat>,
)
    requires
        call_ensures(conversion_for, (format,), target),
    ensures
        target is None <==> arrangement_of(format) is Some && arrangement_of(format)->0.is_yuv420,
{
}

/// No number of FFmpeg's stands for a format that is processed as it is: all formats that are
/// not told apart are treated alike.
pub proof fn lemma_other_formats_are_treated_alike(
    first: i32,
    second: i32,
    first_target: Option<PixelFormat>,
    second_target: Option<PixelFormat>,
    first_layout: Vec<PlaneSpec>,
    second_layout: Vec<PlaneSpec>,
)
    requires
        call_ensures(conversion_for, (PixelFormat::Other(first),), first_target),
        call_ensures(conversion_for, (PixelFormat::Other(second),), second_target),
        call_ensures(plane_layout, (PixelFormat::Other(first),), first_layout),
        call_ensures(plane_layout, (PixelFormat::Other(second),), second_layout),
    ensures
        first_target == Some(PixelFormat::YUV444P16LE),
        first_target == second_target,
        first_layout@ == second_layout@,
{
}

/// The planes that frames are processed in are those of the pixels that are processed: of the
/// frame's own format if it is processed as it is, of the format it is converted to if not.
pub proof fn lemma_layout_is_that_of_the_processed_pixels(
    format: PixelFormat,
    target: Option<PixelFormat>,
    layout: Vec<PlaneSpec>,
)
    requires
        call_ensures(conversion_for, (format,), target),
        call_ensures(plane_layout, (format,), layout),
    ensures
        ({
            let processed = if target is Some {
                target->0
            } else {
                format
            };
            &&& arrangement_of(processed) is Some
            &&& arranged(layout@, arrangement_of(processed)->0)
        }),
{
}

/// A setup has the input's dimensions as its input half and the output's as its output half,
/// for every plane.
pub proof fn lemma_setup_keeps_input_and_output_apart(
    plane: PlaneSpec,
    input: PlaneGeometry,
    output: PlaneGeometry,
    setup: PlaneSetup,
)
    requires
        call_ensures(plane_setup, (plane, input, output), setup),
    ensures
        setup.plane == plane,
        setup.size.0 == input.width,
        setup.size.1 == input.height,
        setup.stride == input.stride,
        setup.output_size.0 == output.width,
        setup.output_size.1 == output.height,
        setup.output_stride == output.stride,
{
}

/// The input half of a setup depends on the input alone and the output half on the output
/// alone, neither on the plane; and swapping the frames swaps the halves.
pub proof fn lemma_setup_halves_are_independent(
    plane: PlaneSpec,
    other_plane: PlaneSpec,
    input: PlaneGeometry,
    output: PlaneGeometry,
    other: PlaneGeometry,
)
    ensures
        ({
            let setup = setup_of(plane, input, output);
            let same_input = setup_of(other_plane, input, other);
            let same_output = setup_of(other_plane, other, output);
            let swapped = setup_of(plane, output, input);
            &&& setup.size == same_input.size && setup.stride == same_input.stride
            &&& setup.output_size == same_output.output_size && setup.output_stride
                == same_output.output_stride
            &&& swapped.size == setup.output_size && swapped.stride == setup.output_stride
            &&& swapped.output_size == setup.size && swapped.output_stride == setup.stride
        }),
{
}

/// The channels of a plane are listed as they are named.
pub proof fn lemma_channels_are_listed_in_order(
    channels: Channels,
    listed: Vec<usize>,
)
    requires
        call_ensures(Channels::to_vec, (channels,), listed),
    ensures
        channels matches Channels::Single(channel) ==> listed@ == seq![channel],
        channels matches Channels::Pair(first, second) ==> listed@ == seq![first, second],
{
}

} // verus!
