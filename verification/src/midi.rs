use vstd::prelude::*;
use vstd::utf8::{decode_utf8, valid_utf8};

use crate::api::RtMidiApi;
use crate::bindings::{
    create_ok, destroy_ok, fresh_device, only_status_and_callback_changed,
    only_status_and_ignores_changed, only_status_and_open_changed, only_status_and_queue_changed,
    only_status_and_sent_changed, only_status_changed, Direction, NativeDevice, NativeSystem,
};
use crate::error::RtMidiError;
use crate::marshal::{encode_string, finish_port_name, required_length};

verus! {

broadcast use vstd::utf8::encode_utf8_valid_utf8, vstd::utf8::encode_utf8_decode_utf8;

/// How a port name read through the two-phase protocol must come back: the
/// decoded text of the name's bytes, or a decoding failure when they are not
/// valid text — never garbage.
pub open spec fn decoded_port_name(name: Seq<u8>, r: Result<String, RtMidiError>) -> bool {
    if valid_utf8(name) {
        r matches Ok(s) && s@ == decode_utf8(name)
    } else {
        r == Err::<String, RtMidiError>(RtMidiError::DecodingError)
    }
}

/// Create a device handle bound to the chosen backend.  The client name must
/// be representable as a C string; with no usable backend, creation fails and
/// the native layer is left untouched.  The queue limit bounds the input
/// queue and is without effect on an output handle.
pub fn create(
    system: &mut NativeSystem,
    direction: Direction,
    api: RtMidiApi,
    client_name: &str,
    queue_limit: u32,
) -> (r: Result<NativeDevice, RtMidiError>)
    requires
        old(system).wf(),
        old(system).live_handles < 0xffffffffu32,
    ensures
        client_name@.contains('\0') ==> r == Err::<NativeDevice, RtMidiError>(
            RtMidiError::EncodingError,
        ) && *final(system) == *old(system),
        !client_name@.contains('\0') && !old(system).backend_available ==> r == Err::<
            NativeDevice,
            RtMidiError,
        >(RtMidiError::CreationError) && *final(system) == *old(system),
        !client_name@.contains('\0') && old(system).backend_available ==> (r matches Ok(dev)
            && create_ok(*old(system), *final(system)) && fresh_device(
            *old(system),
            direction,
            api,
            queue_limit,
            dev,
        )),
{
    let encoded = encode_string(client_name);
    if let Err(e) = encoded {
        return Err(e);
    }
    match system.native_create(direction, api, queue_limit) {
        None => Err(RtMidiError::CreationError),
        Some(device) => Ok(device),
    }
}

/// Release the device's native resource.  The handle is consumed, so it is
/// destroyed exactly once and can never be used afterwards.
pub fn destroy(system: &mut NativeSystem, device: NativeDevice)
    requires
        old(system).live_handles >= 1,
    ensures
        destroy_ok(*old(system), *final(system)),
{
    system.native_free(device);
}

/// Report which compiled backend this handle is bound to.
pub fn current_api(device: &NativeDevice) -> (r: RtMidiApi)
    ensures
        r == device.api,
{
    device.api
}

/// Count the ports the device currently enumerates, checking the status
/// fields immediately after the native query.
pub fn port_count(device: &mut NativeDevice) -> (r: Result<u32, RtMidiError>)
    requires
        old(device).wf(),
    ensures
        only_status_changed(*old(device), *final(device)),
        r == Ok::<u32, RtMidiError>(old(device).ports@.len() as u32),
{
    let count = device.native_get_port_count();
    match crate::bindings::status_result(&device.wrapper) {
        Ok(()) => Ok(count),
        Err(e) => Err(e),
    }
}

/// Read the name of one port through the two-phase protocol: query the
/// required length, fill a buffer of exactly that length, verify the written
/// count, and decode.  An index the native layer no longer knows fails with
/// a port error; it never succeeds with garbage data.
pub fn port_name(device: &mut NativeDevice, port_number: u32) -> (r: Result<String, RtMidiError>)
    requires
        old(device).wf(),
    ensures
        only_status_changed(*old(device), *final(device)),
        port_number >= old(device).ports@.len() ==> r == Err::<String, RtMidiError>(
            RtMidiError::InvalidPort,
        ),
        port_number < old(device).ports@.len() ==> decoded_port_name(
            old(device).port_name_at(port_number),
            r,
        ),
{
    let (query_res, reported_len) = device.native_port_name_length(port_number);
    let need = match required_length(query_res, reported_len) {
        Ok(n) => n,
        Err(e) => {
            return Err(e);
        },
    };
    let (written, buffer) = device.native_port_name_fill(port_number, need);
    proof {
        crate::marshal::lemma_cstr_terminated(old(device).port_name_at(port_number));
    }
    finish_port_name(written, buffer)
}

/// Open the given port under the given name.  The name must be representable
/// as a C string; opening an already-open handle or an out-of-range port is
/// a native failure, surfaced through the status translation.
pub fn open_port(device: &mut NativeDevice, port_number: u32, port_name: &str) -> (r: Result<
    (),
    RtMidiError,
>)
    requires
        old(device).wf(),
    ensures
        only_status_and_open_changed(*old(device), *final(device)),
        port_name@.contains('\0') ==> r == Err::<(), RtMidiError>(RtMidiError::EncodingError)
            && *final(device) == *old(device),
        !port_name@.contains('\0') && old(device).port_open ==> (r matches Err(
            RtMidiError::NativeFailure(m),
        ) && m@ == "a port is already open"@) && final(device).port_open,
        !port_name@.contains('\0') && !old(device).port_open && port_number >= old(device).ports@.len() ==> (r matches Err(RtMidiError::NativeFailure(m)) && m@
            == "invalid port number"@) && !final(device).port_open,
        !port_name@.contains('\0') && !old(device).port_open && port_number < old(device).ports@.len() ==> r == Ok::<(), RtMidiError>(()) && final(device).port_open,
{
    let name_bytes = match encode_string(port_name) {
        Ok(b) => b,
        Err(e) => {
            return Err(e);
        },
    };
    device.native_open_port(port_number, &name_bytes);
    crate::bindings::status_result(&device.wrapper)
}

/// Create a virtual endpoint, visible to other processes, under the given
/// name.  Backends without virtual-port support fail rather than silently
/// ignoring the request.
pub fn open_virtual_port(device: &mut NativeDevice, port_name: &str) -> (r: Result<
    (),
    RtMidiError,
>)
    requires
        old(device).wf(),
    ensures
        only_status_and_open_changed(*old(device), *final(device)),
        port_name@.contains('\0') ==> r == Err::<(), RtMidiError>(RtMidiError::EncodingError)
            && *final(device) == *old(device),
        !port_name@.contains('\0') && !old(device).virtual_supported ==> (r matches Err(
            RtMidiError::NativeFailure(m),
        ) && m@ == "virtual ports are not supported"@) && final(device).port_open == old(device).port_open,
        !port_name@.contains('\0') && old(device).virtual_supported && old(device).port_open ==> (
        r matches Err(RtMidiError::NativeFailure(m)) && m@ == "a port is already open"@) && final(device).port_open,
        !port_name@.contains('\0') && old(device).virtual_supported && !old(device).port_open ==> r
            == Ok::<(), RtMidiError>(()) && final(device).port_open,
{
    let name_bytes = match encode_string(port_name) {
        Ok(b) => b,
        Err(e) => {
            return Err(e);
        },
    };
    device.native_open_virtual_port(&name_bytes);
    crate::bindings::status_result(&device.wrapper)
}

/// Close the open port.  The native layer does not guarantee idempotence:
/// closing a handle with no open port is a failure, reported through the
/// status translation.
pub fn close_port(device: &mut NativeDevice) -> (r: Result<(), RtMidiError>)
    ensures
        only_status_and_open_changed(*old(device), *final(device)),
        !final(device).port_open,
        old(device).port_open ==> r == Ok::<(), RtMidiError>(()),
        !old(device).port_open ==> (r matches Err(RtMidiError::NativeFailure(m)) && m@
            == "no port is open"@),
{
    device.native_close_port();
    crate::bindings::status_result(&device.wrapper)
}

/// Send one complete message out the open port.  A payload longer than the
/// native length type can count is rejected before anything is sent; on
/// success the whole message leaves at once.
pub fn send_message(device: &mut NativeDevice, message: &Vec<u8>) -> (r: Result<(), RtMidiError>)
    requires
        old(device).direction == Direction::Output,
    ensures
        only_status_and_sent_changed(*old(device), *final(device)),
        message@.len() > 0x7fffffff ==> r == Err::<(), RtMidiError>(RtMidiError::MessageTooLarge)
            && *final(device) == *old(device),
        message@.len() <= 0x7fffffff && !old(device).port_open ==> (r matches Err(
            RtMidiError::NativeFailure(m),
        ) && m@ == "no port is open"@) && final(device).sent == old(device).sent,
        message@.len() <= 0x7fffffff && old(device).port_open ==> ({
            &&& r == Ok::<(), RtMidiError>(())
            &&& final(device).sent@.len() == old(device).sent@.len() + 1
            &&& final(device).sent@[old(device).sent@.len() as int]@ == message@
            &&& forall|i: int|
                0 <= i < old(device).sent@.len() ==> final(device).sent@[i] == #[trigger] old(device).sent@[i]
        }),
{
    if message.len() > 0x7fffffff {
        return Err(RtMidiError::MessageTooLarge);
    }
    device.native_send_message(message);
    crate::bindings::status_result(&device.wrapper)
}

/// Poll for the next queued message.  An empty queue is not an error: it
/// comes back as a zero timestamp with an empty buffer.  Otherwise the
/// oldest message is handed out, truncated to at most `max_size` bytes.
pub fn receive_message(device: &mut NativeDevice, max_size: usize) -> (r: Result<
    (u64, Vec<u8>),
    RtMidiError,
>)
    requires
        old(device).direction == Direction::Input,
    ensures
        only_status_and_queue_changed(*old(device), *final(device)),
        old(device).queue@.len() == 0 ==> (r matches Ok(p) && p.0 == 0 && p.1@.len() == 0) && final(device).queue == old(device).queue,
        old(device).queue@.len() > 0 ==> (r matches Ok(p) && ({
            let front = old(device).queue@[0];
            &&& p.0 == front.timestamp
            &&& p.1@ == (if front.bytes@.len() <= max_size {
                front.bytes@
            } else {
                front.bytes@.take(max_size as int)
            })
            &&& final(device).queue@ == old(device).queue@.drop_first()
        })),
{
    let (timestamp, bytes) = device.native_get_message(max_size);
    match crate::bindings::status_result(&device.wrapper) {
        Ok(()) => Ok((timestamp, bytes)),
        Err(e) => Err(e),
    }
}

/// Register the message callback for this input handle.  At most one
/// callback may be active: registering a second one before cancelling the
/// first fails.  The callback runs on a thread owned by the native layer,
/// concurrently with the registering thread; the function itself and its
/// user data stay with the unverified shell.
pub fn set_callback(device: &mut NativeDevice) -> (r: Result<(), RtMidiError>)
    requires
        old(device).direction == Direction::Input,
    ensures
        only_status_and_callback_changed(*old(device), *final(device)),
        final(device).callback_set,
        old(device).callback_set ==> (r matches Err(RtMidiError::NativeFailure(m)) && m@
            == "a callback is already registered"@),
        !old(device).callback_set ==> r == Ok::<(), RtMidiError>(()),
{
    device.native_set_callback();
    crate::bindings::status_result(&device.wrapper)
}

/// Cancel the registered callback.  Cancelling when none is registered is
/// treated as success.
pub fn cancel_callback(device: &mut NativeDevice) -> (r: Result<(), RtMidiError>)
    requires
        old(device).direction == Direction::Input,
    ensures
        only_status_and_callback_changed(*old(device), *final(device)),
        !final(device).callback_set,
        r == Ok::<(), RtMidiError>(()),
{
    device.native_cancel_callback();
    crate::bindings::status_result(&device.wrapper)
}

/// Choose which incoming message categories the native layer queues and
/// which it drops.  The toggles affect only messages received afterwards.
pub fn ignore_types(device: &mut NativeDevice, sysex: bool, timing: bool, sensing: bool) -> (r:
    Result<(), RtMidiError>)
    requires
        old(device).direction == Direction::Input,
    ensures
        only_status_and_ignores_changed(*old(device), *final(device)),
        final(device).ignore_sysex == sysex,
        final(device).ignore_timing == timing,
        final(device).ignore_sensing == sensing,
        r == Ok::<(), RtMidiError>(()),
{
    device.native_ignore_types(sysex, timing, sensing);
    crate::bindings::status_result(&device.wrapper)
}

} // verus!
