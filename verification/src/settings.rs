//! How the decoder, the encoder and the output of a render are set up.

use vstd::prelude::*;

use crate::planes::PixelFormat;
use crate::text;

verus! {

/// How the input is decoded: whether on a GPU, and on which one.
#[derive(Debug, Clone, Copy, PartialEq, Eq, Structural)]
pub struct DecoderChoice {
    pub use_gpu: bool,
    pub index: usize,
}

/// An index as an unsigned number: a negative one counts back from the end of the range.
pub open spec fn unsigned_index(index: i32) -> int {
    if index >= 0 {
        index as int
    } else {
        usize::MAX + 1 + index
    }
}

/// Chooses how the input is decoded: on the GPU if that is switched on and a decoder was
/// picked, that is, its index is not negative.
pub fn choose_decoder(gpu_decoding: bool, gpu_decoder_index: i32) -> (choice: DecoderChoice)
    ensures
        choice.use_gpu == (gpu_decoding && gpu_decoder_index >= 0),
        choice.index == unsigned_index(gpu_decoder_index),
{
    let index: usize = if gpu_decoder_index >= 0 {
        gpu_decoder_index as usize
    } else {
        usize::MAX - (-(gpu_decoder_index + 1)) as usize
    };
    DecoderChoice { use_gpu: gpu_decoding && gpu_decoder_index >= 0, index }
}

/// The options that an encoder is opened with, in the order in which they are set, and the
/// pixel format it takes, where it is not left to the encoder.
#[derive(Debug)]
pub struct EncoderSettings {
    pub options: Vec<(&'static str, &'static str)>,
    pub pixel_format: Option<PixelFormat>,
}

/// Settings with the options as sequences of characters.
pub struct SettingsView {
    pub options: Seq<(Seq<char>, Seq<char>)>,
    pub pixel_format: Option<PixelFormat>,
}

/// Options with their names and values as sequences of characters.
pub open spec fn option_views(options: Seq<(&'static str, &'static str)>) -> Seq<
    (Seq<char>, Seq<char>),
> {
    options.map_values(|option: (&'static str, &'static str)| (option.0@, option.1@))
}

impl View for EncoderSettings {
    type V = SettingsView;

    open spec fn view(&self) -> SettingsView {
        SettingsView { options: option_views(self.options@), pixel_format: self.pixel_format }
    }
}

/// The ProRes profiles by name, in the order of their numbers.
pub open spec fn prores_profiles() -> Seq<Seq<char>> {
    seq!["Proxy"@, "LT"@, "Standard"@, "HQ"@, "4444"@, "4444XQ"@]
}

/// The number of a ProRes profile, as the encoder is told it.
pub open spec fn profile_number(profile: int) -> Seq<char> {
    seq![(48 + profile) as char]
}

/// The pixel format of a ProRes profile: the last two have full chroma and an alpha channel.
pub open spec fn prores_format(profile: int) -> PixelFormat {
    if profile < 4 {
        PixelFormat::YUV422P10LE
    } else {
        PixelFormat::YUVA444P10LE
    }
}

/// The options and the pixel format that a codec option leads to for the encoder of this name.
///
/// A codec option that is no ProRes profile leaves both to the encoder. PNG pictures have 16
/// bits per channel if the codec option says so, and 8 if not.
pub open spec fn codec_settings(encoder: Seq<char>, codec_options: Seq<char>) -> SettingsView {
    let plain = SettingsView { options: Seq::empty(), pixel_format: None };
    if encoder == "prores_ks"@ {
        if prores_profiles().contains(codec_options) {
            let profile = prores_profiles().index_of(codec_options);
            SettingsView {
                options: seq![("profile"@, profile_number(profile))],
                pixel_format: Some(prores_format(profile)),
            }
        } else {
            plain
        }
    } else if encoder == "png"@ {
        SettingsView {
            pixel_format: if text::holds_text(codec_options, "16-bit"@) {
                Some(PixelFormat::RGB48BE)
            } else {
                Some(PixelFormat::RGB24)
            },
            ..plain
        }
    } else {
        plain
    }
}

/// The settings of the encoder of this name: it picks its own number of threads, it may fall
/// back to software, and the codec option is obeyed.
pub open spec fn settings_of(encoder: Seq<char>, codec_options: Seq<char>) -> SettingsView {
    let codec = codec_settings(encoder, codec_options);
    SettingsView {
        options: seq![("threads"@, "auto"@)] + codec.options + seq![("allow_sw"@, "1"@)],
        ..codec
    }
}

/// The position of a codec option among the ProRes profiles.
fn find_profile(codec_options: &str) -> (profile: Option<usize>)
    ensures
        profile is Some <==> prores_profiles().contains(codec_options@),
        profile matches Some(i) ==> i < 6 && i == prores_profiles().index_of(codec_options@),
{
    let names: [&'static str; 6] = ["Proxy", "LT", "Standard", "HQ", "4444", "4444XQ"];
    let ghost profiles = prores_profiles();
    for i in 0..6usize
        invariant
            profiles == prores_profiles(),
            forall|k: int| 0 <= k < 6 ==> #[trigger] names@[k]@ == profiles[k],
            forall|k: int| 0 <= k < i ==> #[trigger] profiles[k] != codec_options@,
    {
        if text::same_text(names[i], codec_options) {
            assert(profiles[i as int] == codec_options@);
            proof {
                lemma_profiles_are_distinct();
            }
            return Some(i);
        }
    }
    None
}

/// The number of a ProRes profile, as the encoder is told it.
fn number_text(profile: usize) -> (number: &'static str)
    requires
        profile < 6,
    ensures
        number@ == profile_number(profile as int),
{
    proof {
        reveal_strlit("0");
        reveal_strlit("1");
        reveal_strlit("2");
        reveal_strlit("3");
        reveal_strlit("4");
        reveal_strlit("5");
    }
    let number: &'static str = match profile {
        0 => "0",
        1 => "1",
        2 => "2",
        3 => "3",
        4 => "4",
        _ => "5",
    };
    assert(number@ =~= profile_number(profile as int));
    number
}

/// The settings of the encoder of this name under a codec option.
pub fn encoder_settings(encoder: &str, codec_options: &str) -> (settings: EncoderSettings)
    ensures
        settings@ == settings_of(encoder@, codec_options@),
{
    let mut options: Vec<(&'static str, &'static str)> = vec![("threads", "auto")];
    let mut pixel_format: Option<PixelFormat> = None;
    if text::same_text(encoder, "prores_ks") {
        match find_profile(codec_options) {
            Some(profile) => {
                options.push(("profile", number_text(profile)));
                pixel_format = Some(
                    if profile < 4 {
                        PixelFormat::YUV422P10LE
                    } else {
                        PixelFormat::YUVA444P10LE
                    },
                );
            },
            None => {},
        }
    } else if text::same_text(encoder, "png") {
        if text::text_holds(codec_options, "16-bit") {
            pixel_format = Some(PixelFormat::RGB48BE);
        } else {
            pixel_format = Some(PixelFormat::RGB24);
        }
    }
    options.push(("allow_sw", "1"));
    let settings = EncoderSettings { options, pixel_format };
    assert(settings@.options =~= settings_of(encoder@, codec_options@).options);
    settings
}

/// The lower 32 bits of a number.
pub open spec fn low_32_bits(n: usize) -> int {
    n as int % 0x1_0000_0000
}

/// The size of the output as the encoder takes it: what does not fit in 32 bits is cut off.
pub fn output_size(width: usize, height: usize) -> (size: (u32, u32))
    ensures
        size.0 == low_32_bits(width),
        size.1 == low_32_bits(height),
{
    let low_width: u64 = width as u64 % 0x1_0000_0000;
    let low_height: u64 = height as u64 % 0x1_0000_0000;
    (low_width as u32, low_height as u32)
}

/// How a render is set up, once an encoder was found that works.
#[derive(Debug)]
pub struct RenderPlan {
    pub video_codec: String,
    pub gpu_encoding: bool,
    pub settings: EncoderSettings,
    pub keep_audio: bool,
    pub output_size: (u32, u32),
}

/// Plans a render with the encoder of this name, which runs on the GPU or does not.
pub fn plan_render(
    encoder: &str,
    is_gpu: bool,
    codec_options: &str,
    audio: bool,
    output_width: usize,
    output_height: usize,
) -> (plan: RenderPlan)
    ensures
        plan.video_codec@ == encoder@,
        plan.gpu_encoding == is_gpu,
        plan.settings@ == settings_of(encoder@, codec_options@),
        plan.keep_audio == audio,
        plan.output_size.0 == low_32_bits(output_width),
        plan.output_size.1 == low_32_bits(output_height),
{
    RenderPlan {
        video_codec: encoder.to_owned(),
        gpu_encoding: is_gpu,
        settings: encoder_settings(encoder, codec_options),
        keep_audio: audio,
        output_size: output_size(output_width, output_height),
    }
}

/// No two ProRes profiles have the same name.
pub proof fn lemma_profiles_are_distinct()
    ensures
        prores_profiles().no_duplicates(),
{
    reveal_strlit("Proxy");
    reveal_strlit("LT");
    reveal_strlit("Standard");
    reveal_strlit("HQ");
    reveal_strlit("4444");
    reveal_strlit("4444XQ");
    let names = prores_profiles();
    let lengths = seq![5int, 2, 8, 2, 4, 6];
    assert forall|i: int, j: int| 0 <= i < 6 && 0 <= j < 6 && i != j implies names[i]
        != names[j] by {
        assert(names[i].len() == lengths[i] && names[j].len() == lengths[j]);
        assert(names[1][0] == 'L' && names[3][0] == 'H');
    }
}

/// The encoder is told the number of a ProRes profile by its position in the list of profiles.
pub proof fn lemma_profile_number_is_its_position(profile: int)
    requires
        0 <= profile < prores_profiles().len(),
    ensures
        settings_of("prores_ks"@, prores_profiles()[profile]).options.contains(
            ("profile"@, profile_number(profile)),
        ),
        settings_of("prores_ks"@, prores_profiles()[profile]).pixel_format == Some(
            prores_format(profile),
        ),
{
    lemma_profiles_are_distinct();
    let options = settings_of("prores_ks"@, prores_profiles()[profile]).options;
    assert(options[1] == ("profile"@, profile_number(profile)));
}

/// A codec option only ever matters to the ProRes and the PNG encoder.
pub proof fn lemma_other_encoders_ignore_codec_options(
    encoder: Seq<char>,
    first: Seq<char>,
    second: Seq<char>,
)
    requires
        encoder != "prores_ks"@,
        encoder != "png"@,
    ensures
        settings_of(encoder, first) == settings_of(encoder, second),
        settings_of(encoder, first).pixel_format is None,
{
}

/// Under every encoder and codec option the number of threads is set first and the fallback to
/// software last.
pub proof fn lemma_common_options_are_always_set(encoder: Seq<char>, codec_options: Seq<char>)
    ensures
        settings_of(encoder, codec_options).options.len() >= 2,
        settings_of(encoder, codec_options).options.first() == ("threads"@, "auto"@),
        settings_of(encoder, codec_options).options.last() == ("allow_sw"@, "1"@),
{
}

/// An output size that fits in 32 bits is taken over as it is.
pub proof fn lemma_ordinary_size_is_kept(n: usize)
    requires
        n <= u32::MAX,
    ensures
        low_32_bits(n) == n,
{
}

/// Options, read entry by entry.
pub open spec fn read_options(options: Seq<(&'static str, &'static str)>) -> Seq<
    (Seq<char>, Seq<char>),
> {
    Seq::new(options.len(), |i: int| (options[i].0@, options[i].1@))
}

/// Whether settings have these values for all that is set.
pub open spec fn set_to(
    settings: EncoderSettings,
    profile: Option<Seq<char>>,
    pixel_format: Option<PixelFormat>,
) -> bool {
    &&& read_options(settings.options@) == match profile {
        Some(number) => seq![("threads"@, "auto"@), ("profile"@, number), ("allow_sw"@, "1"@)],
        None => seq![("threads"@, "auto"@), ("allow_sw"@, "1"@)],
    }
    &&& settings.pixel_format == pixel_format
}

/// Whether these are the settings of an encoder under a codec option: the profile's number and
/// format for a ProRes profile, the depth for PNG, and nothing beyond the common options else.
pub open spec fn are_settings_for(
    encoder: Seq<char>,
    codec_options: Seq<char>,
    settings: EncoderSettings,
) -> bool {
    let ten_bit_422 = Some(PixelFormat::YUV422P10LE);
    let ten_bit_444_alpha = Some(PixelFormat::YUVA444P10LE);
    if encoder == "prores_ks"@ {
        if codec_options == "Proxy"@ {
            set_to(settings, Some("0"@), ten_bit_422)
        } else if codec_options == "LT"@ {
            set_to(settings, Some("1"@), ten_bit_422)
        } else if codec_options == "Standard"@ {
            set_to(settings, Some("2"@), ten_bit_422)
        } else if codec_options == "HQ"@ {
            set_to(settings, Some("3"@), ten_bit_422)
        } else if codec_options == "4444"@ {
            set_to(settings, Some("4"@), ten_bit_444_alpha)
        } else if codec_options == "4444XQ"@ {
            set_to(settings, Some("5"@), ten_bit_444_alpha)
        } else {
            set_to(settings, None, None)
        }
    } else if encoder == "png"@ {
        if exists|i: int| #[trigger] text::runs_at(codec_options, "16-bit"@, i) {
            set_to(settings, None, Some(PixelFormat::RGB48BE))
        } else {
            set_to(settings, None, Some(PixelFormat::RGB24))
        }
    } else {
        set_to(settings, None, None)
    }
}

proof fn lemma_settings_by_encoder(
    encoder: Seq<char>,
    codec_options: Seq<char>,
    settings: EncoderSettings,
)
    requires
        settings@ == settings_of(encoder, codec_options),
    ensures
        are_settings_for(encoder, codec_options, settings),
{
    let options = read_options(settings.options@);
    assert(options =~= settings@.options);
    lemma_profiles_are_distinct();
    text::lemma_held_text_stands_in_a_row(codec_options, "16-bit"@);
    reveal_strlit("0");
    reveal_strlit("1");
    reveal_strlit("2");
    reveal_strlit("3");
    reveal_strlit("4");
    reveal_strlit("5");
    assert("0"@ =~= profile_number(0));
    assert("1"@ =~= profile_number(1));
    assert("2"@ =~= profile_number(2));
    assert("3"@ =~= profile_number(3));
    assert("4"@ =~= profile_number(4));
    assert("5"@ =~= profile_number(5));
    let names = prores_profiles();
    if encoder == "prores_ks"@ && names.contains(codec_options) {
        let profile = names.index_of(codec_options);
        assert(names[profile] == codec_options);
        assert(options =~= seq![
            ("threads"@, "auto"@),
            ("profile"@, profile_number(profile)),
            ("allow_sw"@, "1"@),
        ]);
        assert(names[0] != names[1] && names[0] != names[2] && names[0] != names[3] && names[0]
            != names[4] && names[0] != names[5]);
        assert(names[1] != names[2] && names[1] != names[3] && names[1] != names[4] && names[1]
            != names[5]);
        assert(names[2] != names[3] && names[2] != names[4] && names[2] != names[5]);
        assert(names[3] != names[4] && names[3] != names[5] && names[4] != names[5]);
    } else {
        assert(options =~= seq![("threads"@, "auto"@), ("allow_sw"@, "1"@)]);
        assert(names[0] == "Proxy"@ && names[1] == "LT"@ && names[2] == "Standard"@ && names[3]
            == "HQ"@ && names[4] == "4444"@ && names[5] == "4444XQ"@);
    }
}

/// The settings of an encoder are those that its name and the codec option call for.
pub proof fn lemma_settings_obey_the_codec_option(
    encoder: &str,
    codec_options: &str,
    settings: EncoderSettings,
)
    requires
        call_ensures(encoder_settings, (encoder, codec_options), settings),
    ensures
        are_settings_for(encoder@, codec_options@, settings),
{
    lemma_settings_by_encoder(encoder@, codec_options@, settings);
}

/// Whether `low` is what is left of a number when multiples of the range of 32 bits are taken
/// off.
pub open spec fn is_cut_from(low: u32, n: usize) -> bool {
    exists|multiple: nat| #[trigger] (multiple * 0x1_0000_0000) + low == n
}

proof fn lemma_low_bits_are_cut(n: usize, low: u32)
    requires
        low == low_32_bits(n),
    ensures
        is_cut_from(low, n),
{
    let multiple = (n as int / 0x1_0000_0000) as nat;
    assert((multiple * 0x1_0000_0000) + low == n);
}

/// A plan takes over the encoder it is made for, sets it up as the codec option calls for, keeps
/// the audio exactly if it is wanted, and takes the output's width and height in that order.
pub proof fn lemma_plan_is_made_of_what_was_asked(
    encoder: &str,
    is_gpu: bool,
    codec_options: &str,
    audio: bool,
    output_width: usize,
    output_height: usize,
    plan: RenderPlan,
)
    requires
        call_ensures(
            plan_render,
            (encoder, is_gpu, codec_options, audio, output_width, output_height),
            plan,
        ),
    ensures
        plan.video_codec@ == encoder@,
        plan.gpu_encoding == is_gpu,
        are_settings_for(encoder@, codec_options@, plan.settings),
        plan.keep_audio == audio,
        is_cut_from(plan.output_size.0, output_width),
        is_cut_from(plan.output_size.1, output_height),
{
    lemma_settings_by_encoder(encoder@, codec_options@, plan.settings);
    lemma_low_bits_are_cut(output_width, plan.output_size.0);
    lemma_low_bits_are_cut(output_height, plan.output_size.1);
}

/// The output size is the width and the height, each cut to 32 bits, and kept where it fits.
pub proof fn lemma_output_size_is_cut_to_fit(width: usize, height: usize, size: (u32, u32))
    requires
        call_ensures(output_size, (width, height), size),
    ensures
        is_cut_from(size.0, width),
        is_cut_from(size.1, height),
        width <= u32::MAX ==> size.0 == width,
        height <= u32::MAX ==> size.1 == height,
{
    lemma_low_bits_are_cut(width, size.0);
    lemma_low_bits_are_cut(height, size.1);
}

/// Whether this is the choice of a decoder for an index when decoding on the GPU is switched on
/// or off: the GPU is used exactly if it is switched on and the index is not negative, and the
/// index is the one given, taken around the range of indices if it is negative.
pub open spec fn is_choice_for(
    gpu_decoding: bool,
    gpu_decoder_index: i32,
    choice: DecoderChoice,
) -> bool {
    &&& gpu_decoder_index >= 0 ==> choice.use_gpu == gpu_decoding
    &&& gpu_decoder_index < 0 ==> !choice.use_gpu
    &&& gpu_decoder_index >= 0 ==> choice.index == gpu_decoder_index
    &&& gpu_decoder_index < 0 ==> choice.index - gpu_decoder_index == usize::MAX + 1
}

/// A GPU that may be used for decoding is used for every index that is not negative.
pub proof fn lemma_decoder_is_used_when_switched_on(
    gpu_decoding: bool,
    gpu_decoder_index: i32,
    choice: DecoderChoice,
)
    requires
        call_ensures(choose_decoder, (gpu_decoding, gpu_decoder_index), choice),
    ensures
        is_choice_for(gpu_decoding, gpu_decoder_index, choice),
{
}

} // verus!
