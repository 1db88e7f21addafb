use vstd::prelude::*;
use vstd::string::StrSliceExecFns;
use vstd::utf8::{decode_utf8, encode_utf8, valid_utf8};

use crate::api::RtMidiApi;
use crate::error::RtMidiError;
use crate::marshal::{nul_free, utf8_to_string};

verus! {

/// Mirror of the native status fields that every call refreshes: a success
/// flag and, on failure, the bytes of the native error message (a C string,
/// kept here without its terminator).  The message is only meaningful when
/// the flag indicates failure.
#[derive(Debug, Clone)]
pub struct RtMidiWrapper {
    /// True when the last native call completed without error.
    pub ok: bool,
    /// The error message left by the last failing call, if any.
    pub msg: Option<Vec<u8>>,
}

/// The status value a successful native call leaves behind.
pub open spec fn ok_wrapper() -> RtMidiWrapper {
    RtMidiWrapper { ok: true, msg: None }
}

/// The status value of a failed native call whose message decodes to `m`.
pub open spec fn failed_with(w: RtMidiWrapper, m: Seq<char>) -> bool {
    &&& !w.ok
    &&& w.msg matches Some(b) && b@ == encode_utf8(m)
}

/// How the per-handle status fields must be translated into a structured
/// result: success is unit, a failure message is decoded as text (an
/// undecodable message is itself a decoding failure), and a failure without
/// a message carries a placeholder.
pub open spec fn status_of(w: RtMidiWrapper, r: Result<(), RtMidiError>) -> bool {
    if w.ok {
        r == Ok::<(), RtMidiError>(())
    } else {
        match w.msg {
            Option::None => r matches Err(RtMidiError::NativeFailure(m)) && m@
                == "unknown native error"@,
            Option::Some(b) => if valid_utf8(b@) {
                r matches Err(RtMidiError::NativeFailure(m)) && m@ == decode_utf8(b@)
            } else {
                r == Err::<(), RtMidiError>(RtMidiError::DecodingError)
            },
        }
    }
}

/// Inspect the status fields immediately after a native call and translate
/// them, as [`status_of`] demands.
pub fn status_result(w: &RtMidiWrapper) -> (r: Result<(), RtMidiError>)
    ensures
        status_of(*w, r),
{
    if w.ok {
        Ok(())
    } else {
        match &w.msg {
            None => Err(RtMidiError::NativeFailure("unknown native error".to_owned())),
            Some(b) => match utf8_to_string(b) {
                Some(m) => Err(RtMidiError::NativeFailure(m)),
                None => Err(RtMidiError::DecodingError),
            },
        }
    }
}

/// Whether a device handle reads from or writes to its endpoint.
#[derive(Debug, Clone, Copy, PartialEq, Eq, Structural)]
pub enum Direction {
    Input,
    Output,
}

/// One MIDI message as the native receive path hands it out: raw bytes plus
/// the delta time, in native ticks, since the previous message.
#[derive(Debug, Clone)]
pub struct MidiMessage {
    pub timestamp: u64,
    pub bytes: Vec<u8>,
}

/// Every port name is a C string: null-free and short enough for its
/// length, terminator included, to be reported in a native `int`.
pub open spec fn ports_wf(ports: Seq<Vec<u8>>) -> bool {
    forall|i: int|
        0 <= i < ports.len() ==> nul_free(#[trigger] ports[i]@) && ports[i]@.len() < 0x7fffffff
}

/// Model of the native library's process-wide state: which backend is
/// compiled in, what it can do, the endpoints it currently exposes, and how
/// many handles it has allocated (for leak accounting).
#[derive(Debug)]
pub struct NativeSystem {
    /// The backend picked when a handle asks for `Unspecified`.
    pub compiled_api: RtMidiApi,
    /// False models a build with no usable backend: creation fails.
    pub backend_available: bool,
    /// Some backends cannot create virtual ports.
    pub virtual_ports_supported: bool,
    /// The C-string bytes of each endpoint name, without terminators.
    pub ports: Vec<Vec<u8>>,
    /// Native resources currently allocated and not yet freed.
    pub live_handles: u32,
}

impl NativeSystem {
    pub open spec fn wf(self) -> bool {
        &&& ports_wf(self.ports@)
        &&& self.ports@.len() <= 0xffffffffu32
    }
}

/// The successful-creation transition of the native layer: one more live
/// handle, everything else untouched.
pub open spec fn create_ok(pre: NativeSystem, post: NativeSystem) -> bool {
    &&& pre.live_handles < 0xffffffffu32
    &&& post == (NativeSystem { live_handles: (pre.live_handles + 1) as u32, ..pre })
}

/// The destruction transition of the native layer: one less live handle,
/// everything else untouched.
pub open spec fn destroy_ok(pre: NativeSystem, post: NativeSystem) -> bool {
    &&& pre.live_handles >= 1
    &&& post == (NativeSystem { live_handles: (pre.live_handles - 1) as u32, ..pre })
}

/// Creating a handle and then destroying it returns the native layer to the
/// state it started in: no resource leaks.
pub proof fn lemma_create_destroy_no_leak(s0: NativeSystem, s1: NativeSystem, s2: NativeSystem)
    requires
        create_ok(s0, s1),
        destroy_ok(s1, s2),
    ensures
        s2 == s0,
        s2.live_handles == s0.live_handles,
{
}

/// What a freshly created handle looks like: bound to the requested backend
/// (or to the compiled one when `Unspecified` was asked for), enumerating the
/// system's current endpoints, with nothing open, registered, queued or sent.
pub open spec fn fresh_device(
    sys: NativeSystem,
    direction: Direction,
    api: RtMidiApi,
    queue_limit: u32,
    dev: NativeDevice,
) -> bool {
    &&& dev.wf()
    &&& dev.wrapper.ok
    &&& dev.direction == direction
    &&& dev.api == (if api == RtMidiApi::Unspecified {
        sys.compiled_api
    } else {
        api
    })
    &&& dev.ports@.len() == sys.ports@.len()
    &&& forall|i: int| 0 <= i < dev.ports@.len() ==> dev.ports@[i]@ == #[trigger] sys.ports@[i]@
    &&& dev.virtual_supported == sys.virtual_ports_supported
    &&& !dev.port_open
    &&& !dev.callback_set
    &&& dev.queue@.len() == 0
    &&& dev.queue_limit == queue_limit
    &&& !dev.ignore_sysex
    &&& !dev.ignore_timing
    &&& !dev.ignore_sensing
    &&& dev.sent@.len() == 0
}

/// Model of one native device handle: the opaque resource a creation call
/// allocates, together with the per-handle status fields and the state the
/// native layer keeps for it.  The handle is valid from creation until it is
/// consumed by destruction; single ownership makes use-after-destroy
/// impossible.
#[derive(Debug)]
pub struct NativeDevice {
    /// The per-handle status fields, refreshed by every native call.
    pub wrapper: RtMidiWrapper,
    /// Whether this handle reads or writes.
    pub direction: Direction,
    /// The backend this handle is bound to.
    pub api: RtMidiApi,
    /// The endpoint names this handle enumerates (C-string bytes).
    pub ports: Vec<Vec<u8>>,
    /// Whether the backend can create virtual ports.
    pub virtual_supported: bool,
    /// Whether a port is currently open on this handle.
    pub port_open: bool,
    /// Whether a message callback is currently registered (input only).
    pub callback_set: bool,
    /// Messages received and queued, oldest first (input only).
    pub queue: Vec<MidiMessage>,
    /// Messages arriving while the queue is this full are dropped.
    pub queue_limit: u32,
    /// Drop incoming system-exclusive messages instead of queueing them.
    pub ignore_sysex: bool,
    /// Drop incoming timing messages instead of queueing them.
    pub ignore_timing: bool,
    /// Drop incoming active-sensing messages instead of queueing them.
    pub ignore_sensing: bool,
    /// Messages sent out through this handle, oldest first (output only).
    pub sent: Vec<Vec<u8>>,
}

/// The given native call changes nothing but the status fields.
pub open spec fn only_status_changed(pre: NativeDevice, post: NativeDevice) -> bool {
    post == (NativeDevice { wrapper: post.wrapper, ..pre })
}

/// The given native call changes nothing but the status fields and whether a
/// port is open.
pub open spec fn only_status_and_open_changed(pre: NativeDevice, post: NativeDevice) -> bool {
    post == (NativeDevice { wrapper: post.wrapper, port_open: post.port_open, ..pre })
}

/// The given native call changes nothing but the status fields and the input
/// queue.
pub open spec fn only_status_and_queue_changed(pre: NativeDevice, post: NativeDevice) -> bool {
    post == (NativeDevice { wrapper: post.wrapper, queue: post.queue, ..pre })
}

/// The given native call changes nothing but the status fields and the
/// callback registration.
pub open spec fn only_status_and_callback_changed(pre: NativeDevice, post: NativeDevice) -> bool {
    post == (NativeDevice { wrapper: post.wrapper, callback_set: post.callback_set, ..pre })
}

/// The given native call changes nothing but the status fields and the
/// ignore toggles.
pub open spec fn only_status_and_ignores_changed(pre: NativeDevice, post: NativeDevice) -> bool {
    post == (NativeDevice {
        wrapper: post.wrapper,
        ignore_sysex: post.ignore_sysex,
        ignore_timing: post.ignore_timing,
        ignore_sensing: post.ignore_sensing,
        ..pre
    })
}

/// The given native call changes nothing but the status fields and the log
/// of sent messages.
pub open spec fn only_status_and_sent_changed(pre: NativeDevice, post: NativeDevice) -> bool {
    post == (NativeDevice { wrapper: post.wrapper, sent: post.sent, ..pre })
}

/// Message delivery changes nothing but the input queue (it runs on the
/// native thread and does not touch the per-handle status fields).
pub open spec fn only_queue_changed(pre: NativeDevice, post: NativeDevice) -> bool {
    post == (NativeDevice { queue: post.queue, ..pre })
}

/// Copy a byte buffer.
fn copy_bytes(src: &Vec<u8>) -> (r: Vec<u8>)
    ensures
        r@ == src@,
{
    let mut out: Vec<u8> = Vec::new();
    let n = src.len();
    let mut i: usize = 0;
    while i < n
        invariant
            i <= n,
            n == src@.len(),
            out@ == src@.take(i as int),
        decreases n - i,
    {
        out.push(src[i]);
        proof {
            assert(out@ =~= src@.take(i + 1));
        }
        i += 1;
    }
    proof {
        assert(src@.take(n as int) =~= src@);
    }
    out
}

/// Copy a port list.
fn clone_ports(ports: &Vec<Vec<u8>>) -> (r: Vec<Vec<u8>>)
    ensures
        r@.len() == ports@.len(),
        forall|i: int| 0 <= i < ports@.len() ==> r@[i]@ == #[trigger] ports@[i]@,
{
    let mut out: Vec<Vec<u8>> = Vec::new();
    let n = ports.len();
    let mut i: usize = 0;
    while i < n
        invariant
            i <= n,
            n == ports@.len(),
            out@.len() == i,
            forall|j: int| 0 <= j < i ==> out@[j]@ == #[trigger] ports@[j]@,
        decreases n - i,
    {
        out.push(copy_bytes(&ports[i]));
        i += 1;
    }
    out
}

impl NativeSystem {
    /// Model of the native handle constructors: allocate a device bound to
    /// this system, or fail (returning nothing) when no backend is usable.
    /// A handle asking for `Unspecified` is bound to the compiled backend.
    pub fn native_create(
        &mut self,
        direction: Direction,
        api: RtMidiApi,
        queue_limit: u32,
    ) -> (r: Option<NativeDevice>)
        requires
            old(self).wf(),
            old(self).live_handles < 0xffffffffu32,
        ensures
            r is Some <==> old(self).backend_available,
            r is None ==> *final(self) == *old(self),
            r matches Some(dev) ==> create_ok(*old(self), *final(self)) && fresh_device(
                *old(self),
                direction,
                api,
                queue_limit,
                dev,
            ),
    {
        if !self.backend_available {
            return None;
        }
        let bound_api = if matches!(api, RtMidiApi::Unspecified) {
            self.compiled_api
        } else {
            api
        };
        let device = NativeDevice {
            wrapper: RtMidiWrapper { ok: true, msg: None },
            direction,
            api: bound_api,
            ports: clone_ports(&self.ports),
            virtual_supported: self.virtual_ports_supported,
            port_open: false,
            callback_set: false,
            queue: Vec::new(),
            queue_limit,
            ignore_sysex: false,
            ignore_timing: false,
            ignore_sensing: false,
            sent: Vec::new(),
        };
        self.live_handles = self.live_handles + 1;
        proof {
            assert(create_ok(*old(self), *self));
            assert(device.ports@.len() <= 0xffffffffu32);
            assert forall|i: int| 0 <= i < device.ports@.len() implies nul_free(
                #[trigger] device.ports@[i]@,
            ) && device.ports@[i]@.len() < 0x7fffffff by {
                assert(device.ports@[i]@ == old(self).ports@[i]@);
            }
            assert(device.wf());
        }
        Some(device)
    }

    /// Model of the native free functions: release the device's resource.
    /// The handle is consumed, so no operation can follow its destruction.
    pub fn native_free(&mut self, device: NativeDevice)
        requires
            old(self).live_handles >= 1,
        ensures
            destroy_ok(*old(self), *final(self)),
    {
        let _consumed = device;
        self.live_handles = self.live_handles - 1;
    }
}

impl NativeDevice {
    pub open spec fn wf(self) -> bool {
        &&& ports_wf(self.ports@)
        &&& self.ports@.len() <= 0xffffffffu32
    }

    /// The C-string bytes of the name of the given port.
    pub open spec fn port_name_at(self, port_number: u32) -> Seq<u8> {
        self.ports@[port_number as int]@
    }

    /// What the native length query reports for the given port: a pure
    /// function of the current port list alone.  On a valid port the call
    /// succeeds (first component zero) and reports the name length including
    /// the terminator; otherwise it signals failure.
    pub open spec fn length_query_result(self, port_number: u32) -> (i32, i32) {
        if port_number < self.ports@.len() {
            (0i32, (self.port_name_at(port_number).len() + 1) as i32)
        } else {
            (-1i32, 0i32)
        }
    }

    /// Record a successful call in the status fields.
    fn set_ok(&mut self)
        ensures
            only_status_changed(*old(self), *final(self)),
            final(self).wrapper == ok_wrapper(),
    {
        self.wrapper = RtMidiWrapper { ok: true, msg: None };
    }

    /// Record a failing call in the status fields, with the given message.
    fn set_error(&mut self, m: &str)
        ensures
            only_status_changed(*old(self), *final(self)),
            failed_with(final(self).wrapper, m@),
    {
        let bytes = m.as_bytes_vec();
        self.wrapper = RtMidiWrapper { ok: false, msg: Some(bytes) };
    }

    /// Model of the native port-count query.
    pub fn native_get_port_count(&mut self) -> (r: u32)
        requires
            old(self).wf(),
        ensures
            only_status_changed(*old(self), *final(self)),
            final(self).wrapper == ok_wrapper(),
            r == old(self).ports@.len(),
    {
        let n = self.ports.len();
        self.set_ok();
        n as u32
    }

    /// Model of the first, length-querying call of the two-phase port-name
    /// protocol (a null destination buffer).  A bad port index is signalled
    /// through the returned status and the handle's status fields.
    pub fn native_port_name_length(&mut self, port_number: u32) -> (r: (i32, i32))
        requires
            old(self).wf(),
        ensures
            only_status_changed(*old(self), *final(self)),
            r == old(self).length_query_result(port_number),
            port_number < old(self).ports@.len() ==> final(self).wrapper == ok_wrapper(),
            port_number >= old(self).ports@.len() ==> failed_with(
                final(self).wrapper,
                "invalid port number"@,
            ),
    {
        if (port_number as usize) < self.ports.len() {
            let need = self.ports[port_number as usize].len() + 1;
            self.set_ok();
            (0, need as i32)
        } else {
            self.set_error("invalid port number");
            (-1, 0)
        }
    }

    /// Model of the second, filling call of the two-phase port-name
    /// protocol: the native layer writes the name and its terminator into a
    /// buffer of the reported length and returns how many name bytes it
    /// wrote.
    pub fn native_port_name_fill(&mut self, port_number: u32, buffer_len: usize) -> (r: (
        i32,
        Vec<u8>,
    ))
        requires
            old(self).wf(),
            port_number < old(self).ports@.len(),
            buffer_len == old(self).port_name_at(port_number).len() + 1,
        ensures
            only_status_changed(*old(self), *final(self)),
            final(self).wrapper == ok_wrapper(),
            r.0 == old(self).port_name_at(port_number).len() as i32,
            r.1@ == old(self).port_name_at(port_number).push(0u8),
    {
        let mut buffer = copy_bytes(&self.ports[port_number as usize]);
        let written = buffer.len();
        buffer.push(0);
        self.set_ok();
        (written as i32, buffer)
    }

    /// Model of the native port-open call: fails on an already-open handle
    /// or an out-of-range index, reporting through the status fields.
    pub fn native_open_port(&mut self, port_number: u32, name: &Vec<u8>)
        requires
            old(self).wf(),
        ensures
            only_status_and_open_changed(*old(self), *final(self)),
            old(self).port_open ==> final(self).port_open == old(self).port_open && failed_with(
                final(self).wrapper,
                "a port is already open"@,
            ),
            !old(self).port_open && port_number >= old(self).ports@.len()
                ==> !final(self).port_open
                && failed_with(final(self).wrapper, "invalid port number"@),
            !old(self).port_open && port_number < old(self).ports@.len() ==> final(self).port_open
                && final(self).wrapper == ok_wrapper(),
    {
        let _ = name;
        if self.port_open {
            self.set_error("a port is already open");
        } else if (port_number as usize) >= self.ports.len() {
            self.set_error("invalid port number");
        } else {
            self.port_open = true;
            self.set_ok();
        }
    }

    /// Model of the native virtual-port call: creates a fresh endpoint for
    /// other processes to connect to, unless the backend does not support
    /// virtual ports or a port is already open.
    pub fn native_open_virtual_port(&mut self, name: &Vec<u8>)
        requires
            old(self).wf(),
        ensures
            only_status_and_open_changed(*old(self), *final(self)),
            !old(self).virtual_supported ==> final(self).port_open == old(self).port_open
                && failed_with(final(self).wrapper, "virtual ports are not supported"@),
            old(self).virtual_supported && old(self).port_open ==> final(self).port_open && failed_with(
                final(self).wrapper,
                "a port is already open"@,
            ),
            old(self).virtual_supported && !old(self).port_open ==> final(self).port_open
                && final(self).wrapper == ok_wrapper(),
    {
        let _ = name;
        if !self.virtual_supported {
            self.set_error("virtual ports are not supported");
        } else if self.port_open {
            self.set_error("a port is already open");
        } else {
            self.port_open = true;
            self.set_ok();
        }
    }

    /// Model of the native port-close call: closing a handle with no open
    /// port is a failure, not a no-op.
    pub fn native_close_port(&mut self)
        ensures
            only_status_and_open_changed(*old(self), *final(self)),
            !final(self).port_open,
            old(self).port_open ==> final(self).wrapper == ok_wrapper(),
            !old(self).port_open ==> failed_with(final(self).wrapper, "no port is open"@),
    {
        if self.port_open {
            self.port_open = false;
            self.set_ok();
        } else {
            self.set_error("no port is open");
        }
    }

    /// Model of the native send call: a negative return signals failure.
    /// On success the whole message leaves at once; on failure nothing of it
    /// is sent.
    pub fn native_send_message(&mut self, message: &Vec<u8>) -> (r: i32)
        requires
            old(self).direction == Direction::Output,
        ensures
            only_status_and_sent_changed(*old(self), *final(self)),
            !old(self).port_open ==> r < 0 && final(self).sent == old(self).sent && failed_with(
                final(self).wrapper,
                "no port is open"@,
            ),
            old(self).port_open ==> ({
                &&& r == 0
                &&& final(self).wrapper == ok_wrapper()
                &&& final(self).sent@.len() == old(self).sent@.len() + 1
                &&& final(self).sent@[old(self).sent@.len() as int]@ == message@
                &&& forall|i: int|
                    0 <= i < old(self).sent@.len() ==> final(self).sent@[i] == #[trigger] old(
                        self,
                    ).sent@[i]
            }),
    {
        if !self.port_open {
            self.set_error("no port is open");
            -1
        } else {
            let copy = copy_bytes(message);
            self.sent.push(copy);
            self.set_ok();
            0
        }
    }

    /// Model of the native receive call: on an empty queue it reports a zero
    /// timestamp and writes nothing; otherwise it hands out the oldest
    /// queued message, writing at most `max_size` of its bytes.
    pub fn native_get_message(&mut self, max_size: usize) -> (r: (u64, Vec<u8>))
        requires
            old(self).direction == Direction::Input,
        ensures
            only_status_and_queue_changed(*old(self), *final(self)),
            final(self).wrapper == ok_wrapper(),
            old(self).queue@.len() == 0 ==> r.0 == 0 && r.1@.len() == 0 && final(self).queue
                == old(self).queue,
            old(self).queue@.len() > 0 ==> ({
                let front = old(self).queue@[0];
                &&& r.0 == front.timestamp
                &&& r.1@ == (if front.bytes@.len() <= max_size {
                    front.bytes@
                } else {
                    front.bytes@.take(max_size as int)
                })
                &&& final(self).queue@ == old(self).queue@.drop_first()
            }),
    {
        if self.queue.len() == 0 {
            self.set_ok();
            (0, Vec::new())
        } else {
            let front = self.queue.remove(0);
            let mut bytes = front.bytes;
            if bytes.len() > max_size {
                bytes.truncate(max_size);
            }
            self.set_ok();
            proof {
                assert(self.queue@ =~= old(self).queue@.drop_first());
            }
            (front.timestamp, bytes)
        }
    }

    /// Model of the native callback registration: at most one callback may
    /// be active, so a second registration fails.  The callback itself runs
    /// on the native thread and is kept by the unverified shell; the model
    /// tracks only whether a registration is active.
    pub fn native_set_callback(&mut self)
        requires
            old(self).direction == Direction::Input,
        ensures
            only_status_and_callback_changed(*old(self), *final(self)),
            old(self).callback_set ==> final(self).callback_set && failed_with(
                final(self).wrapper,
                "a callback is already registered"@,
            ),
            !old(self).callback_set ==> final(self).callback_set && final(self).wrapper
                == ok_wrapper(),
    {
        if self.callback_set {
            self.set_error("a callback is already registered");
        } else {
            self.callback_set = true;
            self.set_ok();
        }
    }

    /// Model of the native callback cancellation: always succeeds, whether
    /// or not a callback was registered.
    pub fn native_cancel_callback(&mut self)
        requires
            old(self).direction == Direction::Input,
        ensures
            only_status_and_callback_changed(*old(self), *final(self)),
            !final(self).callback_set,
            final(self).wrapper == ok_wrapper(),
    {
        self.callback_set = false;
        self.set_ok();
    }

    /// Model of the native ignore-types toggle: configures which message
    /// categories are queued; it affects only messages received afterwards.
    pub fn native_ignore_types(&mut self, sysex: bool, timing: bool, sensing: bool)
        requires
            old(self).direction == Direction::Input,
        ensures
            only_status_and_ignores_changed(*old(self), *final(self)),
            final(self).ignore_sysex == sysex,
            final(self).ignore_timing == timing,
            final(self).ignore_sensing == sensing,
            final(self).wrapper == ok_wrapper(),
    {
        self.ignore_sysex = sysex;
        self.ignore_timing = timing;
        self.ignore_sensing = sensing;
        self.set_ok();
    }

    /// True when the native layer drops a message of this first byte under
    /// the current ignore toggles (system exclusive, timing, or active
    /// sensing).
    pub open spec fn ignored_kind(self, bytes: Seq<u8>) -> bool {
        ||| (self.ignore_sysex && bytes.len() > 0 && bytes[0] == 0xF0)
        ||| (self.ignore_timing && bytes.len() > 0 && bytes[0] == 0xF8)
        ||| (self.ignore_sensing && bytes.len() > 0 && bytes[0] == 0xFE)
    }

    /// Model of the native input thread handing a message to this handle:
    /// it is queued unless its category is ignored, the queue is full, or a
    /// callback consumes it instead of the queue.
    pub fn native_deliver(&mut self, timestamp: u64, bytes: Vec<u8>)
        requires
            old(self).direction == Direction::Input,
        ensures
            only_queue_changed(*old(self), *final(self)),
            old(self).callback_set || old(self).ignored_kind(bytes@) || old(self).queue@.len()
                >= old(self).queue_limit ==> *final(self) == *old(self),
            !old(self).callback_set && !old(self).ignored_kind(bytes@) && old(self).queue@.len()
                < old(self).queue_limit ==> final(self).queue@ == old(self).queue@.push(
                (MidiMessage { timestamp, bytes }),
            ),
    {
        if self.callback_set {
            return ;
        }
        let dropped = if bytes.len() == 0 {
            false
        } else {
            let first = bytes[0];
            (self.ignore_sysex && first == 0xF0) || (self.ignore_timing && first == 0xF8) || (
            self.ignore_sensing && first == 0xFE)
        };
        if dropped {
            return ;
        }
        if self.queue.len() >= self.queue_limit as usize {
            return ;
        }
        self.queue.push(MidiMessage { timestamp, bytes });
    }
}

/// Two length queries in a row, with nothing but the status fields changing
/// in between, report the same required length: the two-phase protocol's
/// first phase is idempotent.
pub proof fn lemma_length_query_idempotent(pre: NativeDevice, mid: NativeDevice, port_number: u32)
    requires
        only_status_changed(pre, mid),
    ensures
        mid.length_query_result(port_number) == pre.length_query_result(port_number),
{
}

} // verus!
