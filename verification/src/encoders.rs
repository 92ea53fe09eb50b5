//! Which encoders can be tried for a codec, and in which order.

use vstd::prelude::*;

use crate::gpu;
use crate::gpu::{GpuType, Platform};
use crate::text;

verus! {

/// The systems on which an encoder exists.
#[derive(Debug, Clone, Copy, PartialEq, Eq, Structural)]
pub enum Availability {
    Apple,
    WindowsAndLinux,
    Windows,
    Linux,
    Everywhere,
}

impl Availability {
    /// Whether `platform` is one of the systems.
    pub open spec fn spec_covers(self, platform: Platform) -> bool {
        match self {
            Availability::Apple => platform.spec_is_apple(),
            Availability::WindowsAndLinux => platform == Platform::Windows || platform
                == Platform::Linux,
            Availability::Windows => platform == Platform::Windows,
            Availability::Linux => platform == Platform::Linux,
            Availability::Everywhere => true,
        }
    }

    /// Whether `platform` is one of the systems.
    #[verifier::when_used_as_spec(spec_covers)]
    pub fn covers(self, platform: Platform) -> (covered: bool)
        ensures
            covered == self.spec_covers(platform),
    {
        match self {
            Availability::Apple => platform.is_apple(),
            Availability::WindowsAndLinux => platform == Platform::Windows || platform
                == Platform::Linux,
            Availability::Windows => platform == Platform::Windows,
            Availability::Linux => platform == Platform::Linux,
            Availability::Everywhere => true,
        }
    }
}

/// One encoder of a codec: its name, whether it runs on the GPU, and where it exists.
pub struct Entry {
    pub name: &'static str,
    pub is_gpu: bool,
    pub available: Availability,
}

/// An entry with its name as a sequence of characters.
pub struct EntryView {
    pub name: Seq<char>,
    pub is_gpu: bool,
    pub available: Availability,
}

impl View for Entry {
    type V = EntryView;

    open spec fn view(&self) -> EntryView {
        EntryView { name: self.name@, is_gpu: self.is_gpu, available: self.available }
    }
}

/// An encoder that runs on the GPU.
pub open spec fn gpu_entry(name: Seq<char>, available: Availability) -> EntryView {
    EntryView { name, is_gpu: true, available }
}

/// An encoder that runs everywhere without the GPU.
pub open spec fn software_entry(name: Seq<char>) -> EntryView {
    EntryView { name, is_gpu: false, available: Availability::Everywhere }
}

/// The encoders of a codec in the order of preference, on all systems and GPUs together.
///
/// A codec that is not known has none.
pub open spec fn all_encoders(codec: Seq<char>) -> Seq<EntryView> {
    if codec == "x264"@ {
        seq![
            gpu_entry("h264_videotoolbox"@, Availability::Apple),
            gpu_entry("h264_nvenc"@, Availability::WindowsAndLinux),
            gpu_entry("nvenc"@, Availability::WindowsAndLinux),
            gpu_entry("nvenc_h264"@, Availability::WindowsAndLinux),
            gpu_entry("h264_amf"@, Availability::Windows),
            gpu_entry("h264_mf"@, Availability::Windows),
            gpu_entry("h264_vaapi"@, Availability::Linux),
            gpu_entry("h264_qsv"@, Availability::WindowsAndLinux),
            gpu_entry("h264_v4l2m2m"@, Availability::Linux),
            software_entry("libx264"@),
        ]
    } else if codec == "x265"@ {
        seq![
            gpu_entry("hevc_videotoolbox"@, Availability::Apple),
            gpu_entry("hevc_nvenc"@, Availability::WindowsAndLinux),
            gpu_entry("nvenc_hevc"@, Availability::WindowsAndLinux),
            gpu_entry("hevc_amf"@, Availability::Windows),
            gpu_entry("hevc_mf"@, Availability::Windows),
            gpu_entry("hevc_vaapi"@, Availability::Linux),
            gpu_entry("hevc_qsv"@, Availability::WindowsAndLinux),
            gpu_entry("hevc_v4l2m2m"@, Availability::Linux),
            software_entry("libx265"@),
        ]
    } else if codec == "ProRes"@ {
        seq![software_entry("prores_ks"@)]
    } else {
        Seq::empty()
    }
}

/// Whether a machine with this GPU can be offered an encoder of this name: the NVENC encoders
/// need an NVIDIA GPU, the AMF encoders need an AMD GPU.
pub open spec fn suits_gpu(name: Seq<char>, gpu_type: GpuType) -> bool {
    &&& gpu_type == GpuType::NVIDIA || !text::holds_text(name, "nvenc"@)
    &&& gpu_type == GpuType::AMD || !text::holds_text(name, "_amf"@)
}

/// Whether an encoder is offered: it runs where encoders are wanted, it exists on this system,
/// and it suits the GPU.
pub open spec fn is_offered(
    entry: EntryView,
    use_gpu: bool,
    gpu_type: GpuType,
    platform: Platform,
) -> bool {
    &&& use_gpu || !entry.is_gpu
    &&& entry.available.spec_covers(platform)
    &&& suits_gpu(entry.name, gpu_type)
}

/// Whether a codec is written as a sequence of PNG pictures.
pub open spec fn is_png(codec: Seq<char>) -> bool {
    text::holds_text(codec, "PNG"@) || text::holds_text(codec, "png"@)
}

/// The encoders that can be tried for a codec, best first, each with whether it runs on the
/// GPU.
pub open spec fn possible_encoders(
    codec: Seq<char>,
    use_gpu: bool,
    gpu_type: GpuType,
    platform: Platform,
) -> Seq<(Seq<char>, bool)> {
    if is_png(codec) {
        seq![("png"@, false)]
    } else {
        names_of(
            all_encoders(codec).filter(
                |entry: EntryView| is_offered(entry, use_gpu, gpu_type, platform),
            ),
        )
    }
}

/// The name of each encoder and whether it runs on the GPU.
pub open spec fn names_of(entries: Seq<EntryView>) -> Seq<(Seq<char>, bool)> {
    entries.map_values(|entry: EntryView| (entry.name, entry.is_gpu))
}

/// A list of encoders with the names as sequences of characters.
pub open spec fn listed(encoders: Seq<(&'static str, bool)>) -> Seq<(Seq<char>, bool)> {
    encoders.map_values(|encoder: (&'static str, bool)| (encoder.0@, encoder.1))
}

/// Entries by their views.
pub open spec fn entry_views(entries: Seq<Entry>) -> Seq<EntryView> {
    entries.map_values(|entry: Entry| entry@)
}

/// An encoder that runs on the GPU.
fn on_gpu(name: &'static str, available: Availability) -> (entry: Entry)
    ensures
        entry@ == gpu_entry(name@, available),
{
    Entry { name, is_gpu: true, available }
}

/// An encoder that runs everywhere without the GPU.
fn in_software(name: &'static str) -> (entry: Entry)
    ensures
        entry@ == software_entry(name@),
{
    Entry { name, is_gpu: false, available: Availability::Everywhere }
}

/// The encoders of a codec in the order of preference, on all systems and GPUs together.
fn entries_of(codec: &str) -> (entries: Vec<Entry>)
    ensures
        entry_views(entries@) == all_encoders(codec@),
{
    let entries: Vec<Entry> = if text::same_text(codec, "x264") {
        vec![
            on_gpu("h264_videotoolbox", Availability::Apple),
            on_gpu("h264_nvenc", Availability::WindowsAndLinux),
            on_gpu("nvenc", Availability::WindowsAndLinux),
            on_gpu("nvenc_h264", Availability::WindowsAndLinux),
            on_gpu("h264_amf", Availability::Windows),
            on_gpu("h264_mf", Availability::Windows),
            on_gpu("h264_vaapi", Availability::Linux),
            on_gpu("h264_qsv", Availability::WindowsAndLinux),
            on_gpu("h264_v4l2m2m", Availability::Linux),
            in_software("libx264"),
        ]
    } else if text::same_text(codec, "x265") {
        vec![
            on_gpu("hevc_videotoolbox", Availability::Apple),
            on_gpu("hevc_nvenc", Availability::WindowsAndLinux),
            on_gpu("nvenc_hevc", Availability::WindowsAndLinux),
            on_gpu("hevc_amf", Availability::Windows),
            on_gpu("hevc_mf", Availability::Windows),
            on_gpu("hevc_vaapi", Availability::Linux),
            on_gpu("hevc_qsv", Availability::WindowsAndLinux),
            on_gpu("hevc_v4l2m2m", Availability::Linux),
            in_software("libx265"),
        ]
    } else if text::same_text(codec, "ProRes") {
        vec![in_software("prores_ks")]
    } else {
        Vec::new()
    };
    assert(entry_views(entries@) =~= all_encoders(codec@));
    entries
}

/// Whether a machine with this GPU can be offered an encoder of this name.
fn suits(name: &'static str, gpu_type: GpuType) -> (suited: bool)
    ensures
        suited == suits_gpu(name@, gpu_type),
{
    if gpu_type != GpuType::NVIDIA && text::text_holds(name, "nvenc") {
        return false;
    }
    if gpu_type != GpuType::AMD && text::text_holds(name, "_amf") {
        return false;
    }
    true
}

/// The encoders that can be tried for a codec, best first, each with whether it runs on the
/// GPU.
pub fn get_possible_encoders(
    codec: &str,
    use_gpu: bool,
    gpu_type: GpuType,
    platform: Platform,
) -> (encoders: Vec<(&'static str, bool)>)
    ensures
        listed(encoders@) == possible_encoders(codec@, use_gpu, gpu_type, platform),
{
    if text::text_holds(codec, "PNG") || text::text_holds(codec, "png") {
        let encoders: Vec<(&'static str, bool)> = vec![("png", false)];
        assert(listed(encoders@) =~= seq![("png"@, false)]);
        return encoders;
    }
    let entries: Vec<Entry> = entries_of(codec);
    let ghost offered = |entry: EntryView| is_offered(entry, use_gpu, gpu_type, platform);
    let ghost views = entry_views(entries@);
    let mut encoders: Vec<(&'static str, bool)> = Vec::new();
    assert(listed(encoders@) =~= names_of(views.take(0).filter(offered))) by {
        reveal(Seq::filter);
    }
    for i in 0..entries.len()
        invariant
            views == entry_views(entries@),
            offered == (|entry: EntryView| is_offered(entry, use_gpu, gpu_type, platform)),
            listed(encoders@) == names_of(views.take(i as int).filter(offered)),
    {
        let entry: &Entry = &entries[i];
        let ghost before = encoders@;
        assert(entry@ == views[i as int]);
        if (use_gpu || !entry.is_gpu) && entry.available.covers(platform) && suits(
            entry.name,
            gpu_type,
        ) {
            encoders.push((entry.name, entry.is_gpu));
        }
        proof {
            reveal(Seq::filter);
            assert(views.take(i + 1).drop_last() =~= views.take(i as int));
            assert(views.take(i + 1).last() == entry@);
            let kept = views.take(i as int).filter(offered);
            if offered(entry@) {
                assert(names_of(kept.push(entry@)) =~= names_of(kept).push(
                    (entry.name@, entry.is_gpu),
                ));
                assert(listed(encoders@) =~= listed(before).push((entry.name@, entry.is_gpu)));
            }
        }
    }
    assert(views.take(views.len() as int) =~= views);
    encoders
}

/// The software encoder of a codec, or `None` if the codec is not known.
pub open spec fn software_encoder(codec: Seq<char>) -> Option<Seq<char>> {
    if is_png(codec) {
        Some("png"@)
    } else if codec == "x264"@ {
        Some("libx264"@)
    } else if codec == "x265"@ {
        Some("libx265"@)
    } else if codec == "ProRes"@ {
        Some("prores_ks"@)
    } else {
        None
    }
}

/// A text without a word's first letter does not hold the word.
proof fn lemma_word_starts_with(hay: Seq<char>, word: Seq<char>, first: char)
    requires
        word.len() > 0,
        word[0] == first,
        !hay.contains(first),
    ensures
        !text::holds_text(hay, word),
{
    assert forall|i: int| !#[trigger] text::occurs_at(hay, word, i) by {
        if text::occurs_at(hay, word, i) {
            assert(hay.subrange(i, i + word.len())[0] == hay[i]);
        }
    }
}

/// No software encoder is taken for one of a GPU vendor.
proof fn lemma_software_suits_every_gpu(codec: Seq<char>, gpu_type: GpuType)
    requires
        software_encoder(codec) is Some,
    ensures
        suits_gpu(software_encoder(codec)->0, gpu_type),
        !text::holds_text(software_encoder(codec)->0, "nvenc"@),
        !text::holds_text(software_encoder(codec)->0, "_amf"@),
{
    reveal_strlit("png");
    reveal_strlit("libx264");
    reveal_strlit("libx265");
    reveal_strlit("prores_ks");
    reveal_strlit("nvenc");
    reveal_strlit("_amf");
    let name = software_encoder(codec)->0;
    if name == "png"@ {
        assert(forall|i: int| !#[trigger] text::occurs_at(name, "nvenc"@, i));
    } else {
        assert(!name.contains('n'));
        lemma_word_starts_with(name, "nvenc"@, 'n');
    }
    assert forall|i: int| !#[trigger] text::occurs_at(name, "_amf"@, i) by {
        if text::occurs_at(name, "_amf"@, i) {
            assert(name.subrange(i, i + 4)[0] == name[i]);
            assert(name.subrange(i, i + 4)[3] == name[i + 3]);
        }
    }
}

/// The codecs that are known by name are not taken for PNG, so each has its own encoders.
pub proof fn lemma_named_codecs_are_not_png(codec: Seq<char>)
    requires
        codec == "x264"@ || codec == "x265"@ || codec == "ProRes"@,
    ensures
        !is_png(codec),
        software_encoder(codec) is Some,
        all_encoders(codec).last() == software_entry(software_encoder(codec)->0),
{
    reveal_strlit("x264");
    reveal_strlit("x265");
    reveal_strlit("ProRes");
    reveal_strlit("PNG");
    reveal_strlit("png");
    assert(!codec.contains('p'));
    lemma_word_starts_with(codec, "png"@, 'p');
    assert forall|i: int| !#[trigger] text::occurs_at(codec, "PNG"@, i) by {
        if text::occurs_at(codec, "PNG"@, i) {
            assert(codec.subrange(i, i + 3)[1] == codec[i + 1]);
        }
    }
}

/// Every codec that is known can be encoded without the GPU: whatever the machine, the last
/// encoder to try is the codec's software encoder, and all before it run on the GPU.
pub proof fn lemma_software_encoder_comes_last(
    codec: Seq<char>,
    use_gpu: bool,
    gpu_type: GpuType,
    platform: Platform,
)
    requires
        software_encoder(codec) is Some,
    ensures
        ({
            let encoders = possible_encoders(codec, use_gpu, gpu_type, platform);
            &&& encoders.len() > 0
            &&& encoders.last() == (software_encoder(codec)->0, false)
            &&& forall|i: int| 0 <= i < encoders.len() - 1 ==> (#[trigger] encoders[i]).1
        }),
{
    broadcast use vstd::seq_lib::group_filter_ensures;

    if !is_png(codec) {
        lemma_software_suits_every_gpu(codec, gpu_type);
        let all = all_encoders(codec);
        let offered = |entry: EntryView| is_offered(entry, use_gpu, gpu_type, platform);
        assert(all.filter(offered) == all.drop_last().filter(offered).push(all.last())) by {
            reveal(Seq::filter);
        }
        let before = all.drop_last().filter(offered);
        assert forall|i: int| 0 <= i < before.len() implies (#[trigger] before[i]).is_gpu by {
            lemma_filter_keeps_elements(all.drop_last(), offered, i);
        }
    }
}

/// What a filter keeps was there.
proof fn lemma_filter_keeps_elements(
    entries: Seq<EntryView>,
    kept: spec_fn(EntryView) -> bool,
    i: int,
)
    requires
        0 <= i < entries.filter(kept).len(),
    ensures
        entries.contains(entries.filter(kept)[i]),
    decreases entries.len(),
{
    reveal(Seq::filter);
    if entries.len() > 0 {
        let rest = entries.drop_last();
        if i < rest.filter(kept).len() {
            lemma_filter_keeps_elements(rest, kept, i);
            let j = choose|j: int| 0 <= j < rest.len() && rest[j] == rest.filter(kept)[i];
            assert(entries[j] == entries.filter(kept)[i]);
        } else {
            assert(entries[entries.len() - 1] == entries.filter(kept)[i]);
        }
    }
}

/// When the GPU is not to be used, the software encoder is the only one.
pub proof fn lemma_only_software_without_gpu(
    codec: Seq<char>,
    gpu_type: GpuType,
    platform: Platform,
)
    requires
        software_encoder(codec) is Some,
    ensures
        possible_encoders(codec, false, gpu_type, platform) == seq![
            (software_encoder(codec)->0, false),
        ],
{
    broadcast use vstd::seq_lib::group_filter_ensures;

    lemma_software_encoder_comes_last(codec, false, gpu_type, platform);
    let offered = |entry: EntryView| is_offered(entry, false, gpu_type, platform);
    let kept = all_encoders(codec).filter(offered);
    let encoders = possible_encoders(codec, false, gpu_type, platform);
    assert(forall|i: int| 0 <= i < kept.len() ==> !(#[trigger] kept[i]).is_gpu);
    if !is_png(codec) && encoders.len() > 1 {
        assert(encoders[0].1);
        assert(!kept[0].is_gpu);
    }
    assert(encoders =~= seq![(software_encoder(codec)->0, false)]);
}

/// There is nothing to try exactly for the codecs that are not known.
pub proof fn lemma_no_encoder_for_unknown_codec(
    codec: Seq<char>,
    use_gpu: bool,
    gpu_type: GpuType,
    platform: Platform,
)
    ensures
        possible_encoders(codec, use_gpu, gpu_type, platform).len() == 0
            <==> software_encoder(codec) is None,
{
    if software_encoder(codec) is Some {
        lemma_software_encoder_comes_last(codec, use_gpu, gpu_type, platform);
    } else {
        reveal(Seq::filter);
    }
}

/// NVENC encoders are offered to NVIDIA GPUs only, AMF encoders to AMD GPUs only, and no
/// encoder that runs on the GPU is offered when the GPU is not to be used.
pub proof fn lemma_offers_suit_the_machine(
    codec: Seq<char>,
    use_gpu: bool,
    gpu_type: GpuType,
    platform: Platform,
    i: int,
)
    requires
        0 <= i < possible_encoders(codec, use_gpu, gpu_type, platform).len(),
    ensures
        ({
            let encoder = possible_encoders(codec, use_gpu, gpu_type, platform)[i];
            &&& text::holds_text(encoder.0, "nvenc"@) ==> gpu_type == GpuType::NVIDIA
            &&& text::holds_text(encoder.0, "_amf"@) ==> gpu_type == GpuType::AMD
            &&& encoder.1 ==> use_gpu
        }),
{
    broadcast use vstd::seq_lib::group_filter_ensures;

    if is_png(codec) {
        lemma_software_suits_every_gpu(codec, gpu_type);
    } else {
        let offered = |entry: EntryView| is_offered(entry, use_gpu, gpu_type, platform);
        let kept = all_encoders(codec).filter(offered);
        assert(offered(kept[i]));
    }
}

/// An encoder of the codec's list is offered wherever it exists and suits the GPU.
pub proof fn lemma_suitable_encoder_is_offered(
    codec: Seq<char>,
    use_gpu: bool,
    gpu_type: GpuType,
    platform: Platform,
    i: int,
)
    requires
        !is_png(codec),
        0 <= i < all_encoders(codec).len(),
        is_offered(all_encoders(codec)[i], use_gpu, gpu_type, platform),
    ensures
        possible_encoders(codec, use_gpu, gpu_type, platform).contains(
            (all_encoders(codec)[i].name, all_encoders(codec)[i].is_gpu),
        ),
{
    broadcast use vstd::seq_lib::group_filter_ensures;

    let offered = |entry: EntryView| is_offered(entry, use_gpu, gpu_type, platform);
    let all = all_encoders(codec);
    let kept = all.filter(offered);
    assert(kept.contains(all[i]));
    let j = choose|j: int| 0 <= j < kept.len() && kept[j] == all[i];
    assert(names_of(kept)[j] == (all[i].name, all[i].is_gpu));
}

/// A GPU of no vendor that is told apart narrows the list and adds nothing: what it is offered,
/// every GPU on the same system is offered too.
pub proof fn lemma_unknown_gpu_is_offered_least(
    codec: Seq<char>,
    use_gpu: bool,
    gpu_type: GpuType,
    platform: Platform,
    i: int,
)
    requires
        0 <= i < possible_encoders(codec, use_gpu, GpuType::Unknown, platform).len(),
    ensures
        possible_encoders(codec, use_gpu, gpu_type, platform).contains(
            possible_encoders(codec, use_gpu, GpuType::Unknown, platform)[i],
        ),
{
    broadcast use vstd::seq_lib::group_filter_ensures;

    let least = possible_encoders(codec, use_gpu, GpuType::Unknown, platform);
    let all = all_encoders(codec);
    if is_png(codec) {
        assert(possible_encoders(codec, use_gpu, gpu_type, platform)[i] == least[i]);
    } else {
        let offered = |entry: EntryView| is_offered(entry, use_gpu, GpuType::Unknown, platform);
        let kept = all.filter(offered);
        lemma_filter_keeps_elements(all, offered, i);
        assert(offered(kept[i]));
        let j = choose|j: int| 0 <= j < all.len() && all[j] == kept[i];
        lemma_suitable_encoder_is_offered(codec, use_gpu, gpu_type, platform, j);
    }
}

/// Whether no two entries have the same name.
pub open spec fn named_apart(entries: Seq<EntryView>) -> bool {
    forall|i: int, j: int|
        0 <= i < j < entries.len() ==> (#[trigger] entries[i]).name != (#[trigger] entries[j]).name
}

proof fn lemma_encoders_are_named_apart(codec: Seq<char>)
    ensures
        named_apart(all_encoders(codec)),
{
    reveal_strlit("h264_videotoolbox");
    reveal_strlit("h264_nvenc");
    reveal_strlit("nvenc");
    reveal_strlit("nvenc_h264");
    reveal_strlit("h264_amf");
    reveal_strlit("h264_mf");
    reveal_strlit("h264_vaapi");
    reveal_strlit("h264_qsv");
    reveal_strlit("h264_v4l2m2m");
    reveal_strlit("libx264");
    reveal_strlit("hevc_videotoolbox");
    reveal_strlit("hevc_nvenc");
    reveal_strlit("nvenc_hevc");
    reveal_strlit("hevc_amf");
    reveal_strlit("hevc_mf");
    reveal_strlit("hevc_vaapi");
    reveal_strlit("hevc_qsv");
    reveal_strlit("hevc_v4l2m2m");
    reveal_strlit("libx265");
    let all = all_encoders(codec);
    // Names of the same length differ in their first or their sixth letter.
    let lengths = if codec == "x264"@ {
        seq![17int, 10, 5, 10, 8, 7, 10, 8, 12, 7]
    } else {
        seq![17int, 10, 10, 8, 7, 10, 8, 12, 7]
    };
    let first = if codec == "x264"@ {
        seq!['h', 'h', 'n', 'n', 'h', 'h', 'h', 'h', 'h', 'l']
    } else {
        seq!['h', 'h', 'n', 'h', 'h', 'h', 'h', 'h', 'l']
    };
    let sixth = if codec == "x264"@ {
        seq!['v', 'n', ' ', '_', 'a', 'm', 'v', 'q', 'v', '6']
    } else {
        seq!['v', 'n', '_', 'a', 'm', 'v', 'q', 'v', '6']
    };
    assert forall|i: int, j: int| 0 <= i < j < all.len() implies (#[trigger] all[i]).name != (
    #[trigger] all[j]).name by {
        assert(all[i].name.len() == lengths[i] && all[j].name.len() == lengths[j]);
        assert(all[i].name[0] == first[i] && all[j].name[0] == first[j]);
        assert(lengths[i] > 5 ==> all[i].name[5] == sixth[i]);
        assert(lengths[j] > 5 ==> all[j].name[5] == sixth[j]);
    }
}

proof fn lemma_filter_keeps_names_apart(
    entries: Seq<EntryView>,
    kept: spec_fn(EntryView) -> bool,
)
    requires
        named_apart(entries),
    ensures
        named_apart(entries.filter(kept)),
    decreases entries.len(),
{
    reveal(Seq::filter);
    if entries.len() > 0 {
        let rest = entries.drop_last();
        lemma_filter_keeps_names_apart(rest, kept);
        let left = rest.filter(kept);
        assert forall|i: int| 0 <= i < left.len() implies (#[trigger] left[i]).name
            != entries.last().name by {
            lemma_filter_keeps_elements(rest, kept, i);
            let j = choose|j: int| 0 <= j < rest.len() && rest[j] == left[i];
            assert(entries[j].name != entries[entries.len() - 1].name);
        }
    }
}

/// No encoder is tried twice.
pub proof fn lemma_each_encoder_is_listed_once(
    codec: Seq<char>,
    use_gpu: bool,
    gpu_type: GpuType,
    platform: Platform,
    i: int,
    j: int,
)
    requires
        0 <= i < j < possible_encoders(codec, use_gpu, gpu_type, platform).len(),
    ensures
        possible_encoders(codec, use_gpu, gpu_type, platform)[i].0 != possible_encoders(
            codec,
            use_gpu,
            gpu_type,
            platform,
        )[j].0,
{
    let offered = |entry: EntryView| is_offered(entry, use_gpu, gpu_type, platform);
    lemma_encoders_are_named_apart(codec);
    lemma_filter_keeps_names_apart(all_encoders(codec), offered);
    let kept = all_encoders(codec).filter(offered);
    assert(kept[i].name != kept[j].name);
}

/// The device name decides which vendor's encoders are tried: after a name was seen, NVENC
/// encoders are offered only if it told an NVIDIA GPU, and AMF encoders only if it told an AMD
/// GPU; a name that tells nothing leaves it at the GPU known before.
pub proof fn lemma_device_name_decides_vendor_encoders(
    before: GpuType,
    name: Seq<char>,
    codec: Seq<char>,
    use_gpu: bool,
    platform: Platform,
    i: int,
)
    requires
        0 <= i < possible_encoders(
            codec,
            use_gpu,
            gpu::updated_gpu_type(before, name),
            platform,
        ).len(),
    ensures
        ({
            let encoder = possible_encoders(
                codec,
                use_gpu,
                gpu::updated_gpu_type(before, name),
                platform,
            )[i];
            let told = gpu::named_gpu_type(name);
            &&& text::holds_text(encoder.0, "nvenc"@) ==> told == Some(GpuType::NVIDIA) || (
            told is None && before == GpuType::NVIDIA)
            &&& text::holds_text(encoder.0, "_amf"@) ==> told == Some(GpuType::AMD) || (told is None
                && before == GpuType::AMD)
        }),
{
    lemma_offers_suit_the_machine(
        codec,
        use_gpu,
        gpu::updated_gpu_type(before, name),
        platform,
        i,
    );
}

/// A text without one of a word's letters does not hold the word.
proof fn lemma_word_needs_its_letters(hay: Seq<char>, word: Seq<char>, k: int)
    requires
        0 <= k < word.len(),
        !hay.contains(word[k]),
    ensures
        !text::holds_text(hay, word),
{
    assert forall|i: int| !#[trigger] text::occurs_at(hay, word, i) by {
        if text::occurs_at(hay, word, i) {
            assert(hay.subrange(i, i + word.len())[k] == hay[i + k]);
        }
    }
}

/// Which of these names hold a vendor's word.
proof fn lemma_h264_vendors(gpu_type: GpuType)
    ensures
        suits_gpu("h264_videotoolbox"@, gpu_type),
        suits_gpu("h264_nvenc"@, gpu_type) <==> gpu_type == GpuType::NVIDIA,
        suits_gpu("nvenc"@, gpu_type) <==> gpu_type == GpuType::NVIDIA,
        suits_gpu("nvenc_h264"@, gpu_type) <==> gpu_type == GpuType::NVIDIA,
        suits_gpu("h264_amf"@, gpu_type) <==> gpu_type == GpuType::AMD,
        suits_gpu("h264_mf"@, gpu_type),
        suits_gpu("h264_vaapi"@, gpu_type),
        suits_gpu("h264_qsv"@, gpu_type),
        suits_gpu("h264_v4l2m2m"@, gpu_type),
        suits_gpu("libx264"@, gpu_type),
{
    reveal_strlit("nvenc");
    reveal_strlit("_amf");
    reveal_strlit("h264_videotoolbox");
    reveal_strlit("h264_nvenc");
    reveal_strlit("nvenc_h264");
    reveal_strlit("h264_amf");
    reveal_strlit("h264_mf");
    reveal_strlit("h264_vaapi");
    reveal_strlit("h264_qsv");
    reveal_strlit("h264_v4l2m2m");
    reveal_strlit("libx264");
    lemma_word_needs_its_letters("h264_videotoolbox"@, "nvenc"@, 0);
    lemma_word_needs_its_letters("h264_videotoolbox"@, "_amf"@, 3);
    assert("h264_nvenc"@.subrange(5, 10) =~= "nvenc"@);
    assert(text::occurs_at("h264_nvenc"@, "nvenc"@, 5));
    lemma_word_needs_its_letters("h264_nvenc"@, "_amf"@, 3);
    assert("nvenc"@.subrange(0, 5) =~= "nvenc"@);
    assert(text::occurs_at("nvenc"@, "nvenc"@, 0));
    lemma_word_needs_its_letters("nvenc"@, "_amf"@, 3);
    assert("nvenc_h264"@.subrange(0, 5) =~= "nvenc"@);
    assert(text::occurs_at("nvenc_h264"@, "nvenc"@, 0));
    lemma_word_needs_its_letters("nvenc_h264"@, "_amf"@, 3);
    assert("h264_amf"@.subrange(4, 8) =~= "_amf"@);
    assert(text::occurs_at("h264_amf"@, "_amf"@, 4));
    lemma_word_needs_its_letters("h264_amf"@, "nvenc"@, 0);
    lemma_word_needs_its_letters("h264_mf"@, "nvenc"@, 0);
    lemma_word_needs_its_letters("h264_mf"@, "_amf"@, 1);
    lemma_word_needs_its_letters("h264_vaapi"@, "nvenc"@, 0);
    lemma_word_needs_its_letters("h264_vaapi"@, "_amf"@, 3);
    lemma_word_needs_its_letters("h264_qsv"@, "nvenc"@, 0);
    lemma_word_needs_its_letters("h264_qsv"@, "_amf"@, 3);
    lemma_word_needs_its_letters("h264_v4l2m2m"@, "nvenc"@, 0);
    lemma_word_needs_its_letters("h264_v4l2m2m"@, "_amf"@, 3);
    lemma_word_needs_its_letters("libx264"@, "nvenc"@, 0);
    lemma_word_needs_its_letters("libx264"@, "_amf"@, 3);
}

/// Which of these names hold a vendor's word.
proof fn lemma_hevc_vendors(gpu_type: GpuType)
    ensures
        suits_gpu("hevc_videotoolbox"@, gpu_type),
        suits_gpu("hevc_nvenc"@, gpu_type) <==> gpu_type == GpuType::NVIDIA,
        suits_gpu("nvenc_hevc"@, gpu_type) <==> gpu_type == GpuType::NVIDIA,
        suits_gpu("hevc_amf"@, gpu_type) <==> gpu_type == GpuType::AMD,
        suits_gpu("hevc_mf"@, gpu_type),
        suits_gpu("hevc_vaapi"@, gpu_type),
        suits_gpu("hevc_qsv"@, gpu_type),
        suits_gpu("hevc_v4l2m2m"@, gpu_type),
        suits_gpu("libx265"@, gpu_type),
{
    reveal_strlit("nvenc");
    reveal_strlit("_amf");
    reveal_strlit("hevc_videotoolbox");
    reveal_strlit("hevc_nvenc");
    reveal_strlit("nvenc_hevc");
    reveal_strlit("hevc_amf");
    reveal_strlit("hevc_mf");
    reveal_strlit("hevc_vaapi");
    reveal_strlit("hevc_qsv");
    reveal_strlit("hevc_v4l2m2m");
    reveal_strlit("libx265");
    lemma_word_needs_its_letters("hevc_videotoolbox"@, "nvenc"@, 0);
    lemma_word_needs_its_letters("hevc_videotoolbox"@, "_amf"@, 3);
    assert("hevc_nvenc"@.subrange(5, 10) =~= "nvenc"@);
    assert(text::occurs_at("hevc_nvenc"@, "nvenc"@, 5));
    lemma_word_needs_its_letters("hevc_nvenc"@, "_amf"@, 3);
    assert("nvenc_hevc"@.subrange(0, 5) =~= "nvenc"@);
    assert(text::occurs_at("nvenc_hevc"@, "nvenc"@, 0));
    lemma_word_needs_its_letters("nvenc_hevc"@, "_amf"@, 3);
    assert("hevc_amf"@.subrange(4, 8) =~= "_amf"@);
    assert(text::occurs_at("hevc_amf"@, "_amf"@, 4));
    lemma_word_needs_its_letters("hevc_amf"@, "nvenc"@, 0);
    lemma_word_needs_its_letters("hevc_mf"@, "nvenc"@, 0);
    lemma_word_needs_its_letters("hevc_mf"@, "_amf"@, 1);
    lemma_word_needs_its_letters("hevc_vaapi"@, "nvenc"@, 0);
    lemma_word_needs_its_letters("hevc_vaapi"@, "_amf"@, 3);
    lemma_word_needs_its_letters("hevc_qsv"@, "nvenc"@, 0);
    lemma_word_needs_its_letters("hevc_qsv"@, "_amf"@, 3);
    lemma_word_needs_its_letters("hevc_v4l2m2m"@, "nvenc"@, 0);
    lemma_word_needs_its_letters("hevc_v4l2m2m"@, "_amf"@, 3);
    lemma_word_needs_its_letters("libx265"@, "nvenc"@, 0);
    lemma_word_needs_its_letters("libx265"@, "_amf"@, 3);
}

/// Encoders that run on the GPU, where a condition holds.
pub open spec fn gpu_encoders_if(condition: bool, names: Seq<Seq<char>>) -> Seq<
    (Seq<char>, bool),
> {
    if condition {
        Seq::new(names.len(), |i: int| (names[i], true))
    } else {
        Seq::empty()
    }
}

/// A list of encoders, read entry by entry.
pub open spec fn read_out(encoders: Seq<(&'static str, bool)>) -> Seq<(Seq<char>, bool)> {
    Seq::new(encoders.len(), |i: int| (encoders[i].0@, encoders[i].1))
}

/// Whether a codec's name has the letters P, N and G in a row, all in upper or all in lower
/// case.
pub open spec fn spells_png(codec: Seq<char>) -> bool {
    exists|i: int|
        #![trigger codec[i]]
        0 <= i && i + 2 < codec.len() && {
            ||| codec[i] == 'P' && codec[i + 1] == 'N' && codec[i + 2] == 'G'
            ||| codec[i] == 'p' && codec[i + 1] == 'n' && codec[i + 2] == 'g'
        }
}

/// The H.264 encoders of a system with a GPU, best first.
pub open spec fn h264_list(gpu_type: GpuType, platform: Platform) -> Seq<(Seq<char>, bool)> {
    let nvidia = gpu_encoders_if(
        gpu_type == GpuType::NVIDIA,
        seq!["h264_nvenc"@, "nvenc"@, "nvenc_h264"@],
    );
    let amd = gpu_encoders_if(gpu_type == GpuType::AMD, seq!["h264_amf"@]);
    let on_gpu = match platform {
        Platform::Windows => nvidia + amd + gpu_encoders_if(
            true,
            seq!["h264_mf"@, "h264_qsv"@],
        ),
        Platform::Linux => nvidia + gpu_encoders_if(
            true,
            seq!["h264_vaapi"@, "h264_qsv"@, "h264_v4l2m2m"@],
        ),
        Platform::MacOs | Platform::Ios => gpu_encoders_if(true, seq!["h264_videotoolbox"@]),
        Platform::Other => Seq::empty(),
    };
    on_gpu.push(("libx264"@, false))
}

/// The HEVC encoders of a system with a GPU, best first.
pub open spec fn hevc_list(gpu_type: GpuType, platform: Platform) -> Seq<(Seq<char>, bool)> {
    let nvidia = gpu_encoders_if(
        gpu_type == GpuType::NVIDIA,
        seq!["hevc_nvenc"@, "nvenc_hevc"@],
    );
    let amd = gpu_encoders_if(gpu_type == GpuType::AMD, seq!["hevc_amf"@]);
    let on_gpu = match platform {
        Platform::Windows => nvidia + amd + gpu_encoders_if(
            true,
            seq!["hevc_mf"@, "hevc_qsv"@],
        ),
        Platform::Linux => nvidia + gpu_encoders_if(
            true,
            seq!["hevc_vaapi"@, "hevc_qsv"@, "hevc_v4l2m2m"@],
        ),
        Platform::MacOs | Platform::Ios => gpu_encoders_if(true, seq!["hevc_videotoolbox"@]),
        Platform::Other => Seq::empty(),
    };
    on_gpu.push(("libx265"@, false))
}

/// Whether these are the encoders to try for a codec: those of the codec on this system and GPU
/// if the GPU is to be used, its software encoder if not, and none for a codec that is not
/// known.
pub open spec fn is_list_for(
    codec: Seq<char>,
    use_gpu: bool,
    gpu_type: GpuType,
    platform: Platform,
    encoders: Seq<(Seq<char>, bool)>,
) -> bool {
    if spells_png(codec) {
        encoders == seq![("png"@, false)]
    } else if codec == "x264"@ {
        if use_gpu {
            encoders == h264_list(gpu_type, platform)
        } else {
            encoders == seq![("libx264"@, false)]
        }
    } else if codec == "x265"@ {
        if use_gpu {
            encoders == hevc_list(gpu_type, platform)
        } else {
            encoders == seq![("libx265"@, false)]
        }
    } else if codec == "ProRes"@ {
        encoders == seq![("prores_ks"@, false)]
    } else {
        encoders.len() == 0
    }
}

/// A codec is PNG exactly if its name spells it.
proof fn lemma_png_is_spelled(codec: Seq<char>)
    ensures
        is_png(codec) <==> spells_png(codec),
{
    reveal_strlit("PNG");
    reveal_strlit("png");
    text::lemma_held_text_stands_in_a_row(codec, "PNG"@);
    text::lemma_held_text_stands_in_a_row(codec, "png"@);
    if text::holds_text(codec, "PNG"@) {
        let i = choose|i: int| #[trigger] text::runs_at(codec, "PNG"@, i);
        assert(codec[i + 0] == "PNG"@[0] && codec[i + 1] == "PNG"@[1] && codec[i + 2]
            == "PNG"@[2]);
    }
    if text::holds_text(codec, "png"@) {
        let i = choose|i: int| #[trigger] text::runs_at(codec, "png"@, i);
        assert(codec[i + 0] == "png"@[0] && codec[i + 1] == "png"@[1] && codec[i + 2]
            == "png"@[2]);
    }
    if spells_png(codec) {
        let i = choose|i: int|
            #![trigger codec[i]]
            0 <= i && i + 2 < codec.len() && {
                ||| codec[i] == 'P' && codec[i + 1] == 'N' && codec[i + 2] == 'G'
                ||| codec[i] == 'p' && codec[i + 1] == 'n' && codec[i + 2] == 'g'
            };
        if codec[i] == 'P' {
            assert(text::runs_at(codec, "PNG"@, i));
        } else {
            assert(text::runs_at(codec, "png"@, i));
        }
    }
}

/// Filtering one entry more keeps it or leaves it out.
proof fn lemma_filter_step(entries: Seq<EntryView>, kept: spec_fn(EntryView) -> bool, n: int)
    requires
        0 <= n < entries.len(),
    ensures
        entries.take(n + 1).filter(kept) == if kept(entries[n]) {
            entries.take(n).filter(kept).push(entries[n])
        } else {
            entries.take(n).filter(kept)
        },
{
    reveal(Seq::filter);
    assert(entries.take(n + 1).drop_last() =~= entries.take(n));
}

/// The list of a codec's encoders on each system, worked out entry by entry.
proof fn lemma_h264_list(gpu_type: GpuType, platform: Platform)
    ensures
        names_of(
            all_encoders("x264"@).filter(
                |entry: EntryView| is_offered(entry, true, gpu_type, platform),
            ),
        ) == h264_list(gpu_type, platform),
{
    lemma_h264_vendors(gpu_type);
    let offered = |entry: EntryView| is_offered(entry, true, gpu_type, platform);
    let all = all_encoders("x264"@);
    assert(all.take(0).filter(offered) =~= Seq::empty()) by {
        reveal(Seq::filter);
    }
    lemma_filter_step(all, offered, 0);
    lemma_filter_step(all, offered, 1);
    lemma_filter_step(all, offered, 2);
    lemma_filter_step(all, offered, 3);
    lemma_filter_step(all, offered, 4);
    lemma_filter_step(all, offered, 5);
    lemma_filter_step(all, offered, 6);
    lemma_filter_step(all, offered, 7);
    lemma_filter_step(all, offered, 8);
    lemma_filter_step(all, offered, 9);
    assert(all.take(10) =~= all);
    let names = names_of(all.filter(offered));
    match platform {
        Platform::Windows => {
            match gpu_type {
                GpuType::NVIDIA => assert(names =~= h264_list(gpu_type, platform)),
                GpuType::AMD => assert(names =~= h264_list(gpu_type, platform)),
                _ => assert(names =~= h264_list(gpu_type, platform)),
            }
        },
        Platform::Linux => {
            match gpu_type {
                GpuType::NVIDIA => assert(names =~= h264_list(gpu_type, platform)),
                _ => assert(names =~= h264_list(gpu_type, platform)),
            }
        },
        Platform::MacOs | Platform::Ios => assert(names =~= h264_list(gpu_type, platform)),
        Platform::Other => assert(names =~= h264_list(gpu_type, platform)),
    }
}

/// The list of a codec's encoders on each system, worked out entry by entry.
proof fn lemma_hevc_list(gpu_type: GpuType, platform: Platform)
    ensures
        names_of(
            all_encoders("x265"@).filter(
                |entry: EntryView| is_offered(entry, true, gpu_type, platform),
            ),
        ) == hevc_list(gpu_type, platform),
{
    lemma_hevc_vendors(gpu_type);
    let offered = |entry: EntryView| is_offered(entry, true, gpu_type, platform);
    let all = all_encoders("x265"@);
    assert("x265"@ != "x264"@) by {
        reveal_strlit("x264");
        reveal_strlit("x265");
        assert("x264"@[3] != "x265"@[3]);
    }
    assert(all.take(0).filter(offered) =~= Seq::empty()) by {
        reveal(Seq::filter);
    }
    lemma_filter_step(all, offered, 0);
    lemma_filter_step(all, offered, 1);
    lemma_filter_step(all, offered, 2);
    lemma_filter_step(all, offered, 3);
    lemma_filter_step(all, offered, 4);
    lemma_filter_step(all, offered, 5);
    lemma_filter_step(all, offered, 6);
    lemma_filter_step(all, offered, 7);
    lemma_filter_step(all, offered, 8);
    assert(all.take(9) =~= all);
    let names = names_of(all.filter(offered));
    match platform {
        Platform::Windows => {
            match gpu_type {
                GpuType::NVIDIA => assert(names =~= hevc_list(gpu_type, platform)),
                GpuType::AMD => assert(names =~= hevc_list(gpu_type, platform)),
                _ => assert(names =~= hevc_list(gpu_type, platform)),
            }
        },
        Platform::Linux => {
            match gpu_type {
                GpuType::NVIDIA => assert(names =~= hevc_list(gpu_type, platform)),
                _ => assert(names =~= hevc_list(gpu_type, platform)),
            }
        },
        Platform::MacOs | Platform::Ios => assert(names =~= hevc_list(gpu_type, platform)),
        Platform::Other => assert(names =~= hevc_list(gpu_type, platform)),
    }
}

/// The encoders to try for a codec, for every codec, system and GPU.
pub proof fn lemma_list_is_that_of_the_codec(
    codec: Seq<char>,
    use_gpu: bool,
    gpu_type: GpuType,
    platform: Platform,
    encoders: Seq<(&'static str, bool)>,
)
    requires
        listed(encoders) == possible_encoders(codec, use_gpu, gpu_type, platform),
    ensures
        is_list_for(codec, use_gpu, gpu_type, platform, read_out(encoders)),
{
    assert(read_out(encoders) =~= listed(encoders));
    lemma_png_is_spelled(codec);
    if !is_png(codec) {
        if software_encoder(codec) is None {
            lemma_no_encoder_for_unknown_codec(codec, use_gpu, gpu_type, platform);
        } else if !use_gpu {
            lemma_only_software_without_gpu(codec, gpu_type, platform);
        } else if codec == "x264"@ {
            lemma_h264_list(gpu_type, platform);
        } else if codec == "x265"@ {
            lemma_hevc_list(gpu_type, platform);
        } else {
            lemma_prores_is_alone(gpu_type, platform);
        }
    }
}

/// ProRes has a software encoder only, whatever the GPU.
proof fn lemma_prores_is_alone(gpu_type: GpuType, platform: Platform)
    ensures
        possible_encoders("ProRes"@, true, gpu_type, platform) == seq![("prores_ks"@, false)],
{
    lemma_named_codecs_are_not_png("ProRes"@);
    lemma_software_encoder_comes_last("ProRes"@, true, gpu_type, platform);
    reveal_strlit("x264");
    reveal_strlit("x265");
    reveal_strlit("ProRes");
    assert("ProRes"@.len() == 6 && "x264"@.len() == 4 && "x265"@.len() == 4);
    broadcast use vstd::seq_lib::group_filter_ensures;

    assert(possible_encoders("ProRes"@, true, gpu_type, platform) =~= seq![
        ("prores_ks"@, false),
    ]);
}

/// What is offered for a codec is the codec's list on this system and GPU, in order and in full.
pub proof fn lemma_offers_are_the_codecs_list(
    codec: &str,
    use_gpu: bool,
    gpu_type: GpuType,
    platform: Platform,
    encoders: Vec<(&'static str, bool)>,
)
    requires
        call_ensures(get_possible_encoders, (codec, use_gpu, gpu_type, platform), encoders),
    ensures
        is_list_for(codec@, use_gpu, gpu_type, platform, read_out(encoders@)),
{
    lemma_list_is_that_of_the_codec(codec@, use_gpu, gpu_type, platform, encoders@);
}

/// Whether an encoder of this name encodes H.264: the software encoder, NVIDIA's encoder under
/// its bare name, or one with the format in its name.
pub open spec fn encodes_h264(name: Seq<char>) -> bool {
    ||| name == "libx264"@
    ||| name == "nvenc"@
    ||| exists|i: int| #[trigger] text::runs_at(name, "h264"@, i)
}

/// Whether an encoder of this name encodes HEVC: the software encoder, or one with the format in
/// its name.
pub open spec fn encodes_hevc(name: Seq<char>) -> bool {
    ||| name == "libx265"@
    ||| exists|i: int| #[trigger] text::runs_at(name, "hevc"@, i)
}

/// Who asks for H.264 gets H.264, and who asks for HEVC gets HEVC, whatever the machine.
pub proof fn lemma_offers_encode_the_codec(
    codec: &str,
    use_gpu: bool,
    gpu_type: GpuType,
    platform: Platform,
    encoders: Vec<(&'static str, bool)>,
    i: int,
)
    requires
        call_ensures(get_possible_encoders, (codec, use_gpu, gpu_type, platform), encoders),
        0 <= i < encoders@.len(),
    ensures
        codec@ == "x264"@ ==> encodes_h264(encoders@[i].0@),
        codec@ == "x265"@ ==> encodes_hevc(encoders@[i].0@) && !encodes_h264(encoders@[i].0@),
{
    if codec@ == "x264"@ || codec@ == "x265"@ {
        lemma_named_codecs_are_not_png(codec@);
        let offered = |entry: EntryView| is_offered(entry, use_gpu, gpu_type, platform);
        let all = all_encoders(codec@);
        let kept = all.filter(offered);
        assert(listed(encoders@).len() == encoders@.len() && names_of(kept).len() == kept.len());
        assert(listed(encoders@)[i].0 == encoders@[i].0@);
        assert(names_of(kept)[i].0 == kept[i].name);
        lemma_filter_keeps_elements(all, offered, i);
        let j = choose|j: int| 0 <= j < all.len() && all[j] == kept[i];
        reveal_strlit("x264");
        reveal_strlit("x265");
        assert("x264"@[3] != "x265"@[3]);
        if codec@ == "x264"@ {
            lemma_h264_names(j);
        } else {
            lemma_hevc_names(j);
        }
    }
}

/// No encoder is offered for both H.264 and HEVC, on any two machines.
pub proof fn lemma_codecs_share_no_encoder(
    first: &str,
    second: &str,
    use_gpu: bool,
    gpu_type: GpuType,
    platform: Platform,
    other_use_gpu: bool,
    other_gpu_type: GpuType,
    other_platform: Platform,
    encoders: Vec<(&'static str, bool)>,
    others: Vec<(&'static str, bool)>,
    i: int,
    j: int,
)
    requires
        first@ == "x264"@,
        second@ == "x265"@,
        call_ensures(get_possible_encoders, (first, use_gpu, gpu_type, platform), encoders),
        call_ensures(
            get_possible_encoders,
            (second, other_use_gpu, other_gpu_type, other_platform),
            others,
        ),
        0 <= i < encoders@.len(),
        0 <= j < others@.len(),
    ensures
        encoders@[i].0@ != others@[j].0@,
{
    lemma_offers_encode_the_codec(first, use_gpu, gpu_type, platform, encoders, i);
    lemma_offers_encode_the_codec(
        second,
        other_use_gpu,
        other_gpu_type,
        other_platform,
        others,
        j,
    );
}

/// The names of a codec's encoders say what they encode.
proof fn lemma_h264_names(j: int)
    requires
        0 <= j < all_encoders("x264"@).len(),
    ensures
        encodes_h264(all_encoders("x264"@)[j].name),
{
    reveal_strlit("h264");
    reveal_strlit("x264");
    reveal_strlit("x265");
    assert("x264"@[3] != "x265"@[3]);
    reveal_strlit("h264_videotoolbox");
    assert(text::runs_at("h264_videotoolbox"@, "h264"@, 0));
    reveal_strlit("h264_nvenc");
    assert(text::runs_at("h264_nvenc"@, "h264"@, 0));
    reveal_strlit("nvenc_h264");
    assert(text::runs_at("nvenc_h264"@, "h264"@, 6));
    reveal_strlit("h264_amf");
    assert(text::runs_at("h264_amf"@, "h264"@, 0));
    reveal_strlit("h264_mf");
    assert(text::runs_at("h264_mf"@, "h264"@, 0));
    reveal_strlit("h264_vaapi");
    assert(text::runs_at("h264_vaapi"@, "h264"@, 0));
    reveal_strlit("h264_qsv");
    assert(text::runs_at("h264_qsv"@, "h264"@, 0));
    reveal_strlit("h264_v4l2m2m");
    assert(text::runs_at("h264_v4l2m2m"@, "h264"@, 0));
}

/// The names of a codec's encoders say what they encode.
proof fn lemma_hevc_names(j: int)
    requires
        0 <= j < all_encoders("x265"@).len(),
    ensures
        encodes_hevc(all_encoders("x265"@)[j].name),
        !encodes_h264(all_encoders("x265"@)[j].name),
{
    reveal_strlit("h264");
    reveal_strlit("nvenc");
    reveal_strlit("libx264");
    reveal_strlit("libx265");
    reveal_strlit("hevc");
    reveal_strlit("x264");
    reveal_strlit("x265");
    assert("x264"@[3] != "x265"@[3]);
    reveal_strlit("hevc_videotoolbox");
    assert(text::runs_at("hevc_videotoolbox"@, "hevc"@, 0));
    reveal_strlit("hevc_nvenc");
    assert(text::runs_at("hevc_nvenc"@, "hevc"@, 0));
    reveal_strlit("nvenc_hevc");
    assert(text::runs_at("nvenc_hevc"@, "hevc"@, 6));
    reveal_strlit("hevc_amf");
    assert(text::runs_at("hevc_amf"@, "hevc"@, 0));
    reveal_strlit("hevc_mf");
    assert(text::runs_at("hevc_mf"@, "hevc"@, 0));
    reveal_strlit("hevc_vaapi");
    assert(text::runs_at("hevc_vaapi"@, "hevc"@, 0));
    reveal_strlit("hevc_qsv");
    assert(text::runs_at("hevc_qsv"@, "hevc"@, 0));
    reveal_strlit("hevc_v4l2m2m");
    assert(text::runs_at("hevc_v4l2m2m"@, "hevc"@, 0));
    let name = all_encoders("x265"@)[j].name;
    assert forall|i: int| !#[trigger] text::runs_at(name, "h264"@, i) by {
        if text::runs_at(name, "h264"@, i) {
            assert(name[i + 0] == "h264"@[0] && name[i + 2] == "h264"@[2]);
            assert(name.contains('h') && name.contains('6'));
        }
    }
    assert(name.len() != 5);
    assert(name.len() == 7 ==> name[6] != '4');
}

/// What exists on Windows and Linux exists on both, what exists on one of them exists there
/// alone, what is Apple's exists on macOS and iOS alone, and only what exists everywhere exists
/// on a system that is not told apart.
pub proof fn lemma_availability_names_its_systems(
    available: Availability,
    platform: Platform,
    covered: bool,
)
    requires
        call_ensures(Availability::covers, (available, platform), covered),
    ensures
        platform == Platform::Windows ==> (covered <==> available != Availability::Apple
            && available != Availability::Linux),
        platform == Platform::Linux ==> (covered <==> available != Availability::Apple && available
            != Availability::Windows),
        platform == Platform::MacOs || platform == Platform::Ios ==> (covered <==> available
            == Availability::Apple || available == Availability::Everywhere),
        platform == Platform::Other ==> (covered <==> available == Availability::Everywhere),
{
}

} // verus!
