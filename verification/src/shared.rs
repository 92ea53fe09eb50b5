//! What is known of the GPU, shared between threads.
//!
//! Each value stands behind a lock of its own. A value that was read may be replaced by another
//! thread right after, so each operation reads what it needs once, and its contract speaks of
//! the value that was read, whatever that was.

use parking_lot::RwLock;
use vstd::prelude::*;

use crate::encoders;
use crate::gpu;
use crate::gpu::{GpuType, HwDeviceType, Platform};
use crate::settings;
use crate::settings::DecoderChoice;

verus! {

/// The raw lock that `parking_lot::RwLock` is built on.
#[verifier::external_type_specification]
#[verifier::external_body]
pub struct ExRawRwLock(parking_lot::RawRwLock);

/// The lock that `parking_lot::RwLock` names. What it holds can change through a shared
/// reference, so nothing is said of it.
#[verifier::external_type_specification]
#[verifier::external_body]
#[verifier::reject_recursive_types(R)]
#[verifier::reject_recursive_types(T)]
pub struct ExRwLock<R, T: ?Sized>(parking_lot::lock_api::RwLock<R, T>);

/// `RwLock::read`: waits for shared access, copies the value out, and gives the access up.
/// Nothing is claimed of the value, which any thread may have stored. The call does not return
/// while the calling thread itself holds the lock for writing.
#[verifier::external_body]
fn read_lock<T: Copy>(lock: &RwLock<T>) -> (value: T) {
    *lock.read()
}

/// `RwLock::write`: waits for exclusive access, replaces the value, and gives the access up.
/// Nothing is claimed of what the lock holds afterwards, which any thread may replace again.
/// The call does not return while the calling thread itself holds the lock.
#[verifier::external_body]
fn store_in_lock<T>(lock: &RwLock<T>, value: T) {
    *lock.write() = value;
}

/// That reading the lock has given `value`: an outcome of `read_lock` on it. It is known of no
/// value but one that was read.
pub closed spec fn was_read<T: Copy>(lock: &RwLock<T>, value: T) -> bool {
    call_ensures(read_lock::<T>, (lock,), value)
}

/// That `value` was stored in the lock: an outcome of `store_in_lock` on it. It is known of no
/// value but one that was stored.
pub closed spec fn was_stored<T>(lock: &RwLock<T>, value: T) -> bool {
    call_ensures(store_in_lock::<T>, (lock, value), ())
}

/// What is known of the GPU.
#[derive(Debug)]
pub struct SharedGpu {
    /// The type of the GPU.
    pub gpu_type: RwLock<GpuType>,
    /// Whether input may be decoded on the GPU.
    pub gpu_decoding: RwLock<bool>,
}

/// What came of a device name.
#[derive(Debug)]
pub struct GpuUpdate {
    /// The GPU type that the name told and that was stored, or `None` if it told none.
    pub told: Option<GpuType>,
    /// The GPU type that is known then: the one told, or else the one found in the lock.
    pub gpu_type: GpuType,
    /// The device contexts to bring up for it, in order.
    pub devices: Vec<HwDeviceType>,
}

impl SharedGpu {
    /// Takes note of a device name: stores the GPU type it tells, and returns the device
    /// contexts to bring up for the type that is known then.
    pub fn set_gpu_type_from_name(&self, name: &str, platform: Platform) -> (update: GpuUpdate)
        ensures
            update.told == gpu::named_gpu_type(name@),
            update.told matches Some(told) ==> was_stored(&self.gpu_type, told) && update.gpu_type
                == told,
            update.told is None ==> was_read(&self.gpu_type, update.gpu_type),
            update.devices@ == gpu::devices_for(update.gpu_type, platform),
    {
        let told: Option<GpuType> = gpu::gpu_type_from_name(name);
        let gpu_type: GpuType = match told {
            Some(gpu_type) => {
                store_in_lock(&self.gpu_type, gpu_type);
                gpu_type
            },
            None => read_lock(&self.gpu_type),
        };
        GpuUpdate { told, gpu_type, devices: gpu::device_contexts(gpu_type, platform) }
    }

    /// The encoders that can be tried for a codec on the GPU that is known, best first, each
    /// with whether it runs on the GPU.
    pub fn get_possible_encoders(&self, codec: &str, use_gpu: bool, platform: Platform) -> (encoders:
        Vec<(&'static str, bool)>)
        ensures
            exists|gpu_type: GpuType| #[trigger]
                was_read(&self.gpu_type, gpu_type) && encoders::possible_encoders(
                    codec@,
                    use_gpu,
                    gpu_type,
                    platform,
                ) == encoders::listed(encoders@),
    {
        let gpu_type: GpuType = read_lock(&self.gpu_type);
        assert(was_read(&self.gpu_type, gpu_type));
        encoders::get_possible_encoders(codec, use_gpu, gpu_type, platform)
    }

    /// Chooses how the input is decoded, as decoding on the GPU is switched on or off.
    pub fn choose_decoder(&self, gpu_decoder_index: i32) -> (choice: DecoderChoice)
        ensures
            exists|gpu_decoding: bool| #[trigger]
                was_read(&self.gpu_decoding, gpu_decoding) && choice.use_gpu == (gpu_decoding
                    && gpu_decoder_index >= 0),
            choice.use_gpu ==> gpu_decoder_index >= 0,
            choice.index == settings::unsigned_index(gpu_decoder_index),
    {
        let gpu_decoding: bool = read_lock(&self.gpu_decoding);
        assert(was_read(&self.gpu_decoding, gpu_decoding));
        settings::choose_decoder(gpu_decoding, gpu_decoder_index)
    }
}

/// A GPU type that a name tells, of whichever vendor, is stored in the lock, and is the one that
/// device contexts are brought up for; a name that tells none leaves it at the type found in the
/// lock.
pub proof fn lemma_told_type_is_stored(
    gpu: &SharedGpu,
    name: &str,
    platform: Platform,
    update: GpuUpdate,
)
    requires
        call_ensures(SharedGpu::set_gpu_type_from_name, (gpu, name, platform), update),
    ensures
        gpu::tells(name@, update.told),
        forall|gpu_type: GpuType|
            #![trigger was_stored(&gpu.gpu_type, gpu_type)]
            gpu::tells(name@, Some(gpu_type)) ==> was_stored(&gpu.gpu_type, gpu_type)
                && update.gpu_type == gpu_type,
        gpu::tells(name@, None) ==> was_read(&gpu.gpu_type, update.gpu_type),
        gpu::brings_up(update.gpu_type, platform, update.devices@),
{
    gpu::lemma_named_type_is_told(name@);
    gpu::lemma_devices_are_those_of_the_gpu(update.gpu_type, platform, update.devices@);
}

/// What is offered is the codec's list for the GPU type that was read from the lock.
pub proof fn lemma_offers_follow_the_type_read(
    gpu: &SharedGpu,
    codec: &str,
    use_gpu: bool,
    platform: Platform,
    encoders: Vec<(&'static str, bool)>,
)
    requires
        call_ensures(SharedGpu::get_possible_encoders, (gpu, codec, use_gpu, platform), encoders),
    ensures
        exists|gpu_type: GpuType| #[trigger]
            was_read(&gpu.gpu_type, gpu_type) && encoders::is_list_for(
                codec@,
                use_gpu,
                gpu_type,
                platform,
                encoders::read_out(encoders@),
            ),
{
    let gpu_type = choose|gpu_type: GpuType| #[trigger]
        was_read(&gpu.gpu_type, gpu_type) && encoders::possible_encoders(
            codec@,
            use_gpu,
            gpu_type,
            platform,
        ) == encoders::listed(encoders@);
    encoders::lemma_list_is_that_of_the_codec(codec@, use_gpu, gpu_type, platform, encoders@);
}

/// The decoder is chosen by the switch as it was read from the lock: switched on, it is used for
/// every index that is not negative.
pub proof fn lemma_decoder_follows_the_switch_read(
    gpu: &SharedGpu,
    gpu_decoder_index: i32,
    choice: DecoderChoice,
)
    requires
        call_ensures(SharedGpu::choose_decoder, (gpu, gpu_decoder_index), choice),
    ensures
        exists|gpu_decoding: bool| #[trigger]
            was_read(&gpu.gpu_decoding, gpu_decoding) && settings::is_choice_for(
                gpu_decoding,
                gpu_decoder_index,
                choice,
            ),
{
    let gpu_decoding = choose|gpu_decoding: bool| #[trigger]
        was_read(&gpu.gpu_decoding, gpu_decoding) && choice.use_gpu == (gpu_decoding
            && gpu_decoder_index >= 0);
    assert(settings::is_choice_for(gpu_decoding, gpu_decoder_index, choice));
}

} // verus!
