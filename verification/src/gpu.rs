//! Which GPU the machine has, as told by the name its driver reports.

use vstd::prelude::*;

use crate::text;

verus! {

/// The GPU vendors whose encoders are told apart.
#[derive(Debug, Clone, Copy, PartialEq, Eq, Structural)]
pub enum GpuType {
    NVIDIA,
    AMD,
    Intel,
    Unknown,
}

impl Default for GpuType {
    /// The type of a GPU whose name has not been seen yet.
    fn default() -> (gpu_type: Self)
        ensures
            gpu_type == GpuType::Unknown,
    {
        GpuType::Unknown
    }
}

/// The operating systems that differ in the encoders and devices they offer.
#[derive(Debug, Clone, Copy, PartialEq, Eq, Structural)]
pub enum Platform {
    Windows,
    Linux,
    MacOs,
    Ios,
    Other,
}

impl Platform {
    /// Whether this is one of Apple's systems.
    pub open spec fn spec_is_apple(self) -> bool {
        self == Platform::MacOs || self == Platform::Ios
    }

    /// Whether this is one of Apple's systems.
    #[verifier::when_used_as_spec(spec_is_apple)]
    pub fn is_apple(self) -> (apple: bool)
        ensures
            apple == self.spec_is_apple(),
    {
        matches!(self, Platform::MacOs | Platform::Ios)
    }
}

/// The hardware device contexts that decoding and encoding can run on.
#[derive(Debug, Clone, Copy, PartialEq, Eq, Structural)]
pub enum HwDeviceType {
    Cuda,
    D3d11va,
    VideoToolbox,
}

/// The GPU type that a device name tells, or `None` if it tells none.
///
/// The name is read without regard to ASCII case. The words of one vendor go before those of
/// the next, and an Intel processor that is listed as a rendering device is no Intel GPU.
pub open spec fn named_gpu_type(name: Seq<char>) -> Option<GpuType> {
    let lower = text::ascii_lowercase(name);
    if text::holds_text(lower, "nvidia"@) {
        Some(GpuType::NVIDIA)
    } else if text::holds_text(lower, "amd"@) || text::holds_text(lower, "advanced micro devices"@) {
        Some(GpuType::AMD)
    } else if text::holds_text(lower, "intel"@) && !text::holds_text(lower, "intel(r) core(tm)"@) {
        Some(GpuType::Intel)
    } else {
        None
    }
}

/// The GPU type that is known once a device name was seen: what the name tells, or else what
/// was known before.
pub open spec fn updated_gpu_type(before: GpuType, name: Seq<char>) -> GpuType {
    match named_gpu_type(name) {
        Some(gpu_type) => gpu_type,
        None => before,
    }
}

/// The device contexts to bring up for a GPU type, in order.
pub open spec fn devices_for(gpu_type: GpuType, platform: Platform) -> Seq<HwDeviceType> {
    let vendor = match gpu_type {
        GpuType::NVIDIA => seq![HwDeviceType::Cuda],
        GpuType::AMD => seq![HwDeviceType::D3d11va],
        _ => Seq::<HwDeviceType>::empty(),
    };
    if platform.spec_is_apple() {
        vendor.push(HwDeviceType::VideoToolbox)
    } else {
        vendor
    }
}

/// Reads the GPU type off a device name.
pub fn gpu_type_from_name(name: &str) -> (told: Option<GpuType>)
    ensures
        told == named_gpu_type(name@),
{
    let lower: Vec<char> = text::lowercase_chars(name);
    if text::chars_hold(&lower, "nvidia") {
        Some(GpuType::NVIDIA)
    } else if text::chars_hold(&lower, "amd") || text::chars_hold(&lower, "advanced micro devices") {
        Some(GpuType::AMD)
    } else if text::chars_hold(&lower, "intel") && !text::chars_hold(&lower, "intel(r) core(tm)") {
        Some(GpuType::Intel)
    } else {
        None
    }
}

/// The device contexts to bring up for a GPU type, in order.
pub fn device_contexts(gpu_type: GpuType, platform: Platform) -> (devices: Vec<HwDeviceType>)
    ensures
        devices@ == devices_for(gpu_type, platform),
{
    let mut devices: Vec<HwDeviceType> = Vec::new();
    if gpu_type == GpuType::NVIDIA {
        devices.push(HwDeviceType::Cuda);
    }
    if gpu_type == GpuType::AMD {
        devices.push(HwDeviceType::D3d11va);
    }
    if platform.is_apple() {
        devices.push(HwDeviceType::VideoToolbox);
    }
    assert(devices@ =~= devices_for(gpu_type, platform));
    devices
}

/// Takes note of a device name: updates the known GPU type, and returns the device contexts to
/// bring up for the type that is known now, in order.
pub fn set_gpu_type_from_name(gpu_type: &mut GpuType, name: &str, platform: Platform) -> (devices:
    Vec<HwDeviceType>)
    ensures
        *final(gpu_type) == updated_gpu_type(*old(gpu_type), name@),
        devices@ == devices_for(*final(gpu_type), platform),
{
    match gpu_type_from_name(name) {
        Some(told) => {
            *gpu_type = told;
        },
        None => {},
    }
    device_contexts(*gpu_type, platform)
}

/// The ASCII case of a device name does not matter.
pub proof fn lemma_name_case_is_ignored(name: Seq<char>, other: Seq<char>)
    requires
        text::ascii_lowercase(name) == text::ascii_lowercase(other),
    ensures
        named_gpu_type(name) == named_gpu_type(other),
{
}

/// Lower-casing a text twice is lower-casing it once, so a device name and its lower case tell
/// the same GPU type.
pub proof fn lemma_lowered_name_tells_the_same(name: Seq<char>)
    ensures
        text::ascii_lowercase(text::ascii_lowercase(name)) == text::ascii_lowercase(name),
        named_gpu_type(text::ascii_lowercase(name)) == named_gpu_type(name),
{
    assert(text::ascii_lowercase(text::ascii_lowercase(name)) =~= text::ascii_lowercase(name));
}

/// No device name makes a known GPU type unknown again.
pub proof fn lemma_known_type_stays_known(before: GpuType, name: Seq<char>)
    ensures
        named_gpu_type(name) != Some(GpuType::Unknown),
        before != GpuType::Unknown ==> updated_gpu_type(before, name) != GpuType::Unknown,
{
}

/// Seeing the same device name again changes nothing.
pub proof fn lemma_name_seen_again(before: GpuType, name: Seq<char>)
    ensures
        updated_gpu_type(updated_gpu_type(before, name), name) == updated_gpu_type(before, name),
{
}

/// The GPU type after two device names is told by the later one, unless that one tells none.
pub proof fn lemma_later_name_wins(before: GpuType, first: Seq<char>, second: Seq<char>)
    ensures
        named_gpu_type(second) is Some ==> updated_gpu_type(
            updated_gpu_type(before, first),
            second,
        ) == named_gpu_type(second)->0,
        named_gpu_type(second) is None ==> updated_gpu_type(
            updated_gpu_type(before, first),
            second,
        ) == updated_gpu_type(before, first),
{
}

/// Text around an NVIDIA name (a bus, a model, a driver version) does not take the name away,
/// even if it names another vendor.
pub proof fn lemma_nvidia_goes_before_others(prefix: Seq<char>, name: Seq<char>, suffix: Seq<char>)
    requires
        named_gpu_type(name) == Some(GpuType::NVIDIA),
    ensures
        named_gpu_type(prefix + name + suffix) == Some(GpuType::NVIDIA),
{
    let lower = text::ascii_lowercase(name);
    let whole = text::ascii_lowercase(prefix + name + suffix);
    let word = "nvidia"@;
    let i = choose|i: int| #[trigger] text::occurs_at(lower, word, i);
    let j = prefix.len() + i;
    assert(whole.subrange(j, j + word.len()) =~= lower.subrange(i, i + word.len()));
    assert(text::occurs_at(whole, word, j));
}

/// The words that tell a GPU type, in terms of the name as it is reported: NVIDIA wherever that
/// is mentioned; AMD where it is mentioned by its short or its long name and NVIDIA is not; Intel
/// where it is mentioned and neither of the others is, unless a Core processor is; and nothing
/// otherwise.
pub open spec fn tells(name: Seq<char>, told: Option<GpuType>) -> bool {
    let nvidia = text::mentions(name, "nvidia"@);
    let amd = text::mentions(name, "amd"@) || text::mentions(name, "advanced micro devices"@);
    let intel = text::mentions(name, "intel"@);
    let processor = text::mentions(name, "intel(r) core(tm)"@);
    &&& told == Some(GpuType::NVIDIA) <==> nvidia
    &&& told == Some(GpuType::AMD) <==> amd && !nvidia
    &&& told == Some(GpuType::Intel) <==> intel && !processor && !amd && !nvidia
    &&& told is None <==> !nvidia && !amd && (!intel || processor)
}

/// The type that a name tells is the one whose vendor it mentions.
pub proof fn lemma_named_type_is_told(name: Seq<char>)
    ensures
        tells(name, named_gpu_type(name)),
{
    reveal_strlit("nvidia");
    reveal_strlit("amd");
    reveal_strlit("advanced micro devices");
    reveal_strlit("intel");
    reveal_strlit("intel(r) core(tm)");
    text::lemma_lowercase_holds_what_is_mentioned(name, "nvidia"@);
    text::lemma_lowercase_holds_what_is_mentioned(name, "amd"@);
    text::lemma_lowercase_holds_what_is_mentioned(name, "advanced micro devices"@);
    text::lemma_lowercase_holds_what_is_mentioned(name, "intel"@);
    text::lemma_lowercase_holds_what_is_mentioned(name, "intel(r) core(tm)"@);
}

/// The type read off a name is the one whose vendor the name mentions.
pub proof fn lemma_vendor_is_told_by_its_words(name: &str, told: Option<GpuType>)
    requires
        call_ensures(gpu_type_from_name, (name,), told),
    ensures
        tells(name@, told),
{
    lemma_named_type_is_told(name@);
}

/// The known type after a name is the one whose vendor the name mentions, and the one before if
/// it mentions none.
pub proof fn lemma_known_type_follows_the_name(before: GpuType, name: Seq<char>, after: GpuType)
    requires
        after == updated_gpu_type(before, name),
    ensures
        tells(name, Some(after)) || (tells(name, None) && after == before),
{
    lemma_named_type_is_told(name);
}

/// Whether these are the device contexts of a GPU type: CUDA for NVIDIA alone, Direct3D for AMD
/// alone, Video Toolbox on Apple's systems alone and after the others, and none twice.
pub open spec fn brings_up(
    gpu_type: GpuType,
    platform: Platform,
    devices: Seq<HwDeviceType>,
) -> bool {
    &&& devices.contains(HwDeviceType::Cuda) <==> gpu_type == GpuType::NVIDIA
    &&& devices.contains(HwDeviceType::D3d11va) <==> gpu_type == GpuType::AMD
    &&& devices.contains(HwDeviceType::VideoToolbox) <==> platform == Platform::MacOs || platform
        == Platform::Ios
    &&& devices.contains(HwDeviceType::VideoToolbox) ==> devices.last()
        == HwDeviceType::VideoToolbox
    &&& devices.no_duplicates()
}

/// Each device context is brought up exactly for the GPU or the systems that it is of.
pub proof fn lemma_devices_are_those_of_the_gpu(
    gpu_type: GpuType,
    platform: Platform,
    devices: Seq<HwDeviceType>,
)
    requires
        devices == devices_for(gpu_type, platform),
    ensures
        brings_up(gpu_type, platform, devices),
{
    if gpu_type == GpuType::NVIDIA {
        assert(devices[0] == HwDeviceType::Cuda);
    }
    if gpu_type == GpuType::AMD {
        assert(devices[0] == HwDeviceType::D3d11va);
    }
    if platform == Platform::MacOs || platform == Platform::Ios {
        assert(devices[devices.len() - 1] == HwDeviceType::VideoToolbox);
    }
}

/// Of two device lists for the same GPU, the one on an Apple system has one context more, and
/// the systems of each kind do not differ.
pub proof fn lemma_systems_differ_in_video_toolbox_only(
    gpu_type: GpuType,
    apple: Platform,
    other: Platform,
)
    requires
        apple == Platform::MacOs || apple == Platform::Ios,
        other != Platform::MacOs,
        other != Platform::Ios,
    ensures
        devices_for(gpu_type, apple) == devices_for(gpu_type, other).push(
            HwDeviceType::VideoToolbox,
        ),
{
}

/// Apple's systems are macOS and iOS.
pub proof fn lemma_apple_systems(platform: Platform, apple: bool)
    requires
        call_ensures(Platform::is_apple, (platform,), apple),
    ensures
        apple <==> platform == Platform::MacOs || platform == Platform::Ios,
{
}

} // verus!
