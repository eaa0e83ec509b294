//! The two fixed-capacity vectors of the library: the frame buffer and the
//! collection of fan settings. Both are `heapless::Vec`, which keeps its items
//! in line, in the order in which they were pushed, and never holds more than
//! its capacity.
use crate::model::FanSetting;
use crate::model::MAX_SERIAL_DATA_SIZE;
use vstd::prelude::*;

verus! {

/// `heapless::Vec`, of which nothing but the two contents below is known.
#[verifier::external_type_specification]
#[verifier::external_body]
#[verifier::reject_recursive_types(T)]
pub struct ExBoundedVec<T, const N: usize>(heapless::Vec<T, N>);

/// A frame under construction or ready to be sent.
pub type Frame = heapless::Vec<u8, MAX_SERIAL_DATA_SIZE>;

/// The stored fan settings, four at most.
pub type Settings = heapless::Vec<FanSetting, 4>;

/// The bytes that a frame holds, first to last.
pub uninterp spec fn frame_bytes(frame: heapless::Vec<u8, 256>) -> Seq<u8>;

/// The settings that a collection holds, first to last.
pub uninterp spec fn stored_settings(settings: heapless::Vec<FanSetting, 4>) -> Seq<FanSetting>;

/// `heapless::Vec::new`: a vector without items.
#[verifier::external_body]
pub(crate) fn frame_new() -> (r: Frame)
    ensures
        frame_bytes(r) == Seq::<u8>::empty(),
{
    heapless::Vec::new()
}

/// `heapless::Vec::extend_from_slice`: where the bytes fit into what is left
/// of the capacity they are appended in order, else nothing is changed and
/// the call fails.
#[verifier::external_body]
pub(crate) fn frame_extend(frame: &mut Frame, bytes: &[u8]) -> (r: Result<(), ()>)
    ensures
        r is Ok <==> frame_bytes(*old(frame)).len() + bytes@.len() <= MAX_SERIAL_DATA_SIZE,
        r is Ok ==> frame_bytes(*final(frame)) == frame_bytes(*old(frame)) + bytes@,
        r is Err ==> frame_bytes(*final(frame)) == frame_bytes(*old(frame)),
{
    frame.extend_from_slice(bytes)
}

/// `heapless::Vec::new`: a collection without settings.
#[verifier::external_body]
pub(crate) fn settings_new() -> (r: Settings)
    ensures
        stored_settings(r) == Seq::<FanSetting>::empty(),
{
    heapless::Vec::new()
}

/// `heapless::Vec::push`: with fewer than four settings stored the new one
/// becomes the last, else nothing is changed and it is handed back.
#[verifier::external_body]
pub(crate) fn settings_push(settings: &mut Settings, setting: FanSetting) -> (r: Result<
    (),
    FanSetting,
>)
    ensures
        r is Ok <==> stored_settings(*old(settings)).len() < 4,
        r is Ok ==> stored_settings(*final(settings)) == stored_settings(*old(settings)).push(
            setting,
        ),
        r is Err ==> r->Err_0 == setting && stored_settings(*final(settings)) == stored_settings(
            *old(settings),
        ),
{
    settings.push(setting)
}

/// `heapless::Vec::as_slice`: the settings held, of which there are at most four.
#[verifier::external_body]
pub(crate) fn settings_slice(settings: &Settings) -> (r: &[FanSetting])
    ensures
        r@ == stored_settings(*settings),
        r@.len() <= 4,
{
    settings.as_slice()
}

/// `Clone` of a `heapless::Vec`: a collection of copies of the settings, in
/// the same order.
#[verifier::external_body]
pub(crate) fn settings_copy(settings: &Settings) -> (r: Settings)
    ensures
        stored_settings(r) == stored_settings(*settings),
{
    settings.clone()
}

/// Assignment at an index through `heapless::Vec`'s `DerefMut` to a slice:
/// the setting at `index` is replaced, the others stay.
#[verifier::external_body]
pub(crate) fn settings_replace(settings: &mut Settings, index: usize, setting: FanSetting)
    requires
        index < stored_settings(*old(settings)).len(),
    ensures
        stored_settings(*final(settings)) == stored_settings(*old(settings)).update(
            index as int,
            setting,
        ),
{
    settings[index] = setting;
}

/// Appends `bytes` to a frame that has room for them.
pub(crate) fn frame_put(frame: &mut Frame, bytes: &[u8])
    requires
        frame_bytes(*old(frame)).len() + bytes@.len() <= MAX_SERIAL_DATA_SIZE,
    ensures
        frame_bytes(*final(frame)) == frame_bytes(*old(frame)) + bytes@,
{
    match frame_extend(frame, bytes) {
        Ok(()) => {},
        Err(()) => {
            assert(false);
        },
    }
}

} // verus!
