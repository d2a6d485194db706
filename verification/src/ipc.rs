//! The IPC layer as plain values: the handles a message carries, the
//! buffers shared with a server, the client of a server port and the errors
//! of a call. The transport itself (the kernel calls) is supplied by the
//! caller of the clients as a function from request to reply.
use vstd::prelude::*;
use vstd::utf8::{valid_utf8, decode_utf8, encode_utf8};
use crate::kobject::{MemoryObject, PortSender};
use crate::text::{str_from_utf8, lemma_str_of_bytes, lemma_utf8_roundtrip};
use crate::layout::{splice, put_bytes};
use crate::record_block::slice_to_vec;

verus! {

/// A handle to an object held by a server, as carried in messages.
#[derive(Debug, Clone, Copy, PartialEq, Eq, Hash, Structural)]
pub struct Handle(pub u64);

impl Handle {
    /// The handle that designates no object.
    pub fn invalid() -> (r: Handle)
        ensures
            r.0 == 0,
    {
        Handle(0)
    }
}

/// A region of a memory object carried along with a message: where the data
/// starts in the object and how many bytes it spans.
#[derive(Debug, Clone, Copy, PartialEq, Eq, Structural)]
pub struct Buffer {
    pub offset: usize,
    pub len: usize,
}

/// The location of a device on the PCI bus.
#[derive(Debug, Clone, Copy, PartialEq, Eq, Structural)]
pub struct PciAddress {
    pub bus: u8,
    pub device: u8,
    pub function: u8,
}

/// The error of a call: the server's own error, or an error of the kernel
/// while the message travelled.
#[derive(Debug, Clone, Copy, PartialEq, Eq, Structural)]
pub enum CallError<E> {
    KernelError(u32),
    ReplyError(E),
}

/// A kernel object carried in a handle slot of a message.
pub enum KHandle {
    Invalid,
    MemoryObject(MemoryObject),
    Port(PortSender),
}

/// What a handle slot holds, as a value.
pub enum HandleView {
    Invalid,
    Memory(Seq<u8>),
    Port(u64),
}

impl KHandle {
    pub open spec fn view(&self) -> HandleView {
        match self {
            KHandle::Invalid => HandleView::Invalid,
            KHandle::MemoryObject(m) => HandleView::Memory(m@),
            KHandle::Port(p) => HandleView::Port(p.0),
        }
    }
}

/// Number of handle slots of a message.
pub const HANDLE_SLOTS: usize = 5;

/// The handle slots of a message.
pub struct KHandles {
    slots: Vec<KHandle>,
}

impl View for KHandles {
    type V = Seq<HandleView>;

    closed spec fn view(&self) -> Seq<HandleView> {
        self.slots@.map_values(|h: KHandle| h.view())
    }
}

/// Slots that all hold nothing.
pub open spec fn no_handles() -> Seq<HandleView> {
    seq![HandleView::Invalid, HandleView::Invalid, HandleView::Invalid, HandleView::Invalid, HandleView::Invalid]
}

/// Slots that hold nothing but a memory object with `bytes` in slot `i`.
pub open spec fn memory_handle(i: int, bytes: Seq<u8>) -> Seq<HandleView> {
    no_handles().update(i, HandleView::Memory(bytes))
}

impl KHandles {
    #[verifier::type_invariant]
    closed spec fn inv(&self) -> bool {
        self.slots@.len() == HANDLE_SLOTS
    }

    /// Slots that all hold nothing.
    pub fn new() -> (r: KHandles)
        ensures
            r@ == no_handles(),
    {
        let mut slots: Vec<KHandle> = Vec::new();
        slots.push(KHandle::Invalid);
        slots.push(KHandle::Invalid);
        slots.push(KHandle::Invalid);
        slots.push(KHandle::Invalid);
        slots.push(KHandle::Invalid);
        let r = KHandles { slots };
        proof {
            assert(r@ =~= no_handles());
        }
        r
    }

    /// Puts `h` into slot `i`.
    pub fn set(&mut self, i: usize, h: KHandle)
        requires
            i < HANDLE_SLOTS,
        ensures
            old(self)@.len() == HANDLE_SLOTS,
            final(self)@ == old(self)@.update(i as int, h.view()),
    {
        proof {
            use_type_invariant(&*self);
        }
        let mut whole = KHandles::new();
        std::mem::swap(&mut whole, self);
        proof {
            use_type_invariant(&whole);
        }
        let KHandles { mut slots } = whole;
        let ghost prev = slots@;
        slots.set(i, h);
        proof {
            assert(slots@.map_values(|k: KHandle| k.view()) =~= prev.map_values(|k: KHandle| k.view()).update(i as int, h.view()));
        }
        *self = KHandles { slots };
    }

    /// Takes what slot `i` holds, leaving nothing there.
    pub fn take(&mut self, i: usize) -> (r: KHandle)
        requires
            i < HANDLE_SLOTS,
        ensures
            old(self)@.len() == HANDLE_SLOTS,
            r.view() == old(self)@[i as int],
            final(self)@ == old(self)@.update(i as int, HandleView::Invalid),
    {
        proof {
            use_type_invariant(&*self);
        }
        let mut whole = KHandles::new();
        std::mem::swap(&mut whole, self);
        proof {
            use_type_invariant(&whole);
        }
        let KHandles { mut slots } = whole;
        let ghost prev = slots@;
        let r = slots.remove(i);
        slots.insert(i, KHandle::Invalid);
        proof {
            assert(slots@ =~= prev.update(i as int, KHandle::Invalid));
            assert(slots@.map_values(|k: KHandle| k.view()) =~= prev.map_values(|k: KHandle| k.view()).update(i as int, HandleView::Invalid));
        }
        *self = KHandles { slots };
        r
    }
}

impl KHandles {
    /// What slot `i` holds.
    pub fn get(&self, i: usize) -> (r: &KHandle)
        requires
            i < HANDLE_SLOTS,
        ensures
            self@.len() == HANDLE_SLOTS,
            r.view() == self@[i as int],
    {
        proof {
            use_type_invariant(self);
        }
        &self.slots[i]
    }
}

/// The bytes that `buffer` designates in the memory object of slot `i`,
/// when the slot holds one and the buffer lies inside it.
pub open spec fn view_bytes(h: Seq<HandleView>, i: int, buffer: Buffer) -> Option<Seq<u8>> {
    match h[i] {
        HandleView::Memory(bytes) => buffer_bytes(bytes, buffer),
        _ => None,
    }
}

/// The text that `buffer` designates in slot `i`, when it is valid UTF-8.
pub open spec fn view_text(h: Seq<HandleView>, i: int, buffer: Buffer) -> Option<Seq<char>> {
    match view_bytes(h, i, buffer) {
        Some(b) => if valid_utf8(b) { Some(decode_utf8(b)) } else { None },
        None => None,
    }
}

/// The slots `h` after `data` was written at the start of the buffer that
/// `buffer` designates in slot `i`.
pub open spec fn written(h: Seq<HandleView>, i: int, buffer: Buffer, data: Seq<u8>) -> Seq<HandleView> {
    h.update(i, HandleView::Memory(splice(h[i]->Memory_0, buffer.offset as int, data)))
}

/// `e` is what `x` converts to.
pub open spec fn converted<E: Into<T>, T>(x: E, e: T) -> bool {
    call_ensures(<E as Into<T>>::into, (x,), e)
}

/// The bytes that `buffer` designates in the memory object of slot `i`.
pub fn view(handles: &KHandles, i: usize, buffer: Buffer) -> (r: Option<Vec<u8>>)
    requires
        i < HANDLE_SLOTS,
    ensures
        match view_bytes(handles@, i as int, buffer) {
            Some(b) => r matches Some(v) && v@ == b,
            None => r is None,
        },
{
    match handles.get(i) {
        KHandle::MemoryObject(m) => {
            let bytes = m.as_slice();
            if buffer.offset <= bytes.len() && buffer.len <= bytes.len() - buffer.offset {
                let v = slice_to_vec(&bytes[buffer.offset..buffer.offset + buffer.len]);
                proof {
                    assert(v@ =~= m@.subrange(buffer.offset as int, buffer.offset + buffer.len));
                }
                Some(v)
            } else {
                None
            }
        },
        _ => None,
    }
}

/// Whether slot `i` holds a memory object that `buffer` lies inside.
pub fn view_valid(handles: &KHandles, i: usize, buffer: Buffer) -> (r: bool)
    requires
        i < HANDLE_SLOTS,
    ensures
        r == view_bytes(handles@, i as int, buffer) is Some,
{
    match handles.get(i) {
        KHandle::MemoryObject(m) => {
            let size = m.size();
            buffer.offset <= size && buffer.len <= size - buffer.offset
        },
        _ => false,
    }
}

/// The text that `buffer` designates in slot `i`, when it is valid UTF-8.
pub fn view_string(handles: &KHandles, i: usize, buffer: Buffer) -> (r: Option<String>)
    requires
        i < HANDLE_SLOTS,
    ensures
        match view_text(handles@, i as int, buffer) {
            Some(t) => r matches Some(s) && s@ == t,
            None => r is None,
        },
{
    match view(handles, i, buffer) {
        Some(v) => match str_from_utf8(v.as_slice()) {
            Some(s) => {
                proof {
                    lemma_str_of_bytes(s, v@);
                }
                Some(s.to_owned())
            },
            None => None,
        },
        None => None,
    }
}

/// Takes the memory object of slot `i`, when the slot holds one.
pub fn take_object(handles: &mut KHandles, i: usize) -> (r: Option<MemoryObject>)
    requires
        i < HANDLE_SLOTS,
    ensures
        old(handles)@.len() == HANDLE_SLOTS,
        final(handles)@ == old(handles)@.update(i as int, HandleView::Invalid),
        match old(handles)@[i as int] {
            HandleView::Memory(b) => r matches Some(m) && m@ == b,
            _ => r is None,
        },
{
    match handles.take(i) {
        KHandle::MemoryObject(m) => Some(m),
        _ => None,
    }
}

/// Takes the port of slot `i`, when the slot holds one.
pub fn take_port(handles: &mut KHandles, i: usize) -> (r: Option<PortSender>)
    requires
        i < HANDLE_SLOTS,
    ensures
        old(handles)@.len() == HANDLE_SLOTS,
        final(handles)@ == old(handles)@.update(i as int, HandleView::Invalid),
        match old(handles)@[i as int] {
            HandleView::Port(p) => r == Some(PortSender(p)),
            _ => r is None,
        },
{
    match handles.take(i) {
        KHandle::Port(p) => Some(p),
        _ => None,
    }
}

/// Writes `data` at the start of the buffer that `buffer` designates in the
/// memory object of slot `i`.
pub fn write_view(handles: &mut KHandles, i: usize, buffer: Buffer, data: &[u8])
    requires
        i < HANDLE_SLOTS,
        view_bytes(old(handles)@, i as int, buffer) is Some,
        data@.len() <= buffer.len,
    ensures
        final(handles)@ == written(old(handles)@, i as int, buffer, data@),
{
    match handles.take(i) {
        KHandle::MemoryObject(mut m) => {
            put_bytes(m.as_mut_slice(), buffer.offset, data);
            handles.set(i, KHandle::MemoryObject(m));
        },
        _ => {
            proof {
                assert(false);
            }
        },
    }
}

/// A memory object holding `bytes`, shared with a server, and the buffer
/// that designates the bytes in it.
pub fn share_bytes(bytes: &[u8]) -> (r: (MemoryObject, Buffer))
    ensures
        r.0@ == bytes@,
        r.1 == (Buffer { offset: 0, len: bytes@.len() as usize }),
{
    let mut v: Vec<u8> = Vec::new();
    v.extend_from_slice(bytes);
    let len = v.len();
    (MemoryObject::from_bytes(v), Buffer { offset: 0, len })
}

/// A zeroed memory object of `size` bytes shared with a server for it to
/// write into, and the buffer that designates it.
pub fn share_zeroed(size: usize) -> (r: (MemoryObject, Buffer))
    ensures
        r.0@ == Seq::new(size as nat, |i: int| 0u8),
        r.1 == (Buffer { offset: 0, len: size }),
{
    (MemoryObject::create(size), Buffer { offset: 0, len: size })
}

/// The memory object lent in slot `i` comes back from the call with its size.
pub open spec fn keeps_lent_size(sent: Seq<HandleView>, back: Seq<HandleView>, i: int) -> bool {
    sent[i] is Memory ==> back[i] is Memory && back[i]->Memory_0.len() == sent[i]->Memory_0.len()
}

/// Slots that hold nothing but a zeroed memory object of `size` bytes in slot `i`.
pub open spec fn zeroed_handle(i: int, size: usize) -> Seq<HandleView> {
    memory_handle(i, Seq::new(size as nat, |k: int| 0u8))
}

/// The bytes of the memory object in slot `i`.
pub open spec fn slot_bytes(h: Seq<HandleView>, i: int) -> Seq<u8> {
    h[i]->Memory_0
}

/// The first `used` bytes of the memory object lent in slot `i`, as it came
/// back from the call.
pub open spec fn used_bytes(back: Seq<HandleView>, i: int, used: usize) -> Seq<u8> {
    slot_bytes(back, i).take(used as int)
}

/// The first `used` bytes of the memory object held by `h`.
pub fn take_used(h: KHandle, used: usize) -> (r: Vec<u8>)
    requires
        h.view() is Memory,
        used <= h.view()->Memory_0.len(),
    ensures
        r@ == h.view()->Memory_0.take(used as int),
{
    match h {
        KHandle::MemoryObject(m) => {
            let bytes = m.as_slice();
            let mut v: Vec<u8> = Vec::new();
            v.extend_from_slice(&bytes[0..used]);
            proof {
                assert(v@ =~= m@.take(used as int));
            }
            v
        },
        _ => {
            proof {
                assert(false);
            }
            Vec::new()
        },
    }
}

/// The bytes that `buffer` designates in `bytes`, if it lies inside.
pub open spec fn buffer_bytes(bytes: Seq<u8>, buffer: Buffer) -> Option<Seq<u8>> {
    if buffer.offset + buffer.len <= bytes.len() {
        Some(bytes.subrange(buffer.offset as int, buffer.offset + buffer.len))
    } else {
        None
    }
}

/// The string that `buffer` designates in the memory object.
pub fn buffer_string(mobj: &MemoryObject, buffer: Buffer) -> (r: String)
    requires
        buffer_bytes(mobj@, buffer) is Some,
        valid_utf8(buffer_bytes(mobj@, buffer).unwrap()),
    ensures
        r@ == decode_utf8(buffer_bytes(mobj@, buffer).unwrap()),
{
    let bytes = mobj.as_slice();
    let _len = bytes.len();
    let s = str_from_utf8(&bytes[buffer.offset..buffer.offset + buffer.len]).unwrap();
    proof {
        lemma_str_of_bytes(s, buffer_bytes(mobj@, buffer).unwrap());
    }
    s.to_owned()
}

/// The client side of a server port: its name and the message version.
pub struct Client {
    port_name: String,
    version: u16,
}

impl Client {
    pub closed spec fn spec_port_name(&self) -> Seq<char> {
        self.port_name@
    }

    pub closed spec fn spec_version(&self) -> u16 {
        self.version
    }

    /// A client of the port `port_name`, speaking messages of `version`.
    pub fn new(port_name: &str, version: u16) -> (r: Client)
        ensures
            r.spec_port_name() == port_name@,
            r.spec_version() == version,
    {
        Client { port_name: port_name.to_owned(), version }
    }

    /// The name of the port.
    pub fn port_name(&self) -> (r: &str)
        ensures
            r@ == self.spec_port_name(),
    {
        self.port_name.as_str()
    }

    /// The message version.
    pub fn version(&self) -> (r: u16)
        ensures
            r == self.spec_version(),
    {
        self.version
    }
}

/// The buffer sizes that a growing call went through: `first`, then each
/// twice the one before.
pub open spec fn grow_schedule(sizes: Seq<usize>, first: usize) -> bool {
    &&& sizes.len() > 0
    &&& sizes[0] == first
    &&& forall|i: int| 0 < i < sizes.len() ==> #[trigger] sizes[i] == 2 * sizes[i - 1]
}

/// One call through `call` lent a zeroed buffer of `size` bytes in `slot`
/// with the query `q`, and was answered with the error `e`.
pub open spec fn answered_with<T, Q, R, E, F>(call: F, c: &Client, t: T, q: Q, slot: int, size: usize, e: CallError<E>) -> bool
    where
        F: Fn(&Client, T, Q, KHandles) -> (KHandles, Result<(R, KHandles), CallError<E>>),
{
    exists|h: KHandles, out: (KHandles, Result<(R, KHandles), CallError<E>>)| {
        &&& h@ == zeroed_handle(slot, size)
        &&& #[trigger] call.ensures((c, t, q, h), out)
        &&& out.1 == Err::<(R, KHandles), CallError<E>>(e)
    }
}

/// The size of the buffer to try after a server found `size` bytes too few:
/// twice as many, or `None` when that does not fit in a `usize`.
pub fn grown_size(size: usize) -> (r: Option<usize>)
    ensures
        size <= usize::MAX / 2 ==> r == Some((2 * size) as usize),
        size > usize::MAX / 2 ==> r is None,
{
    if size <= usize::MAX / 2 {
        Some(size * 2)
    } else {
        None
    }
}

/// Text written at the start of the zeroed buffer that a client lent in
/// slot `i` reads back at the client as the same text: the buffer keeps its
/// size, the used length fits in it, and the used bytes decode to the text.
pub proof fn lemma_text_read_back(i: int, size: usize, text: Seq<char>)
    requires
        0 <= i < HANDLE_SLOTS,
        encode_utf8(text).len() <= size,
    ensures
        ({
            let sent = zeroed_handle(i, size);
            let back = written(sent, i, Buffer { offset: 0, len: size }, encode_utf8(text));
            let used = encode_utf8(text).len() as usize;
            &&& keeps_lent_size(sent, back, i)
            &&& used <= slot_bytes(back, i).len()
            &&& valid_utf8(used_bytes(back, i, used))
            &&& decode_utf8(used_bytes(back, i, used)) == text
        }),
{
    let bytes = encode_utf8(text);
    let zeros = Seq::new(size as nat, |k: int| 0u8);
    let back = written(zeroed_handle(i, size), i, Buffer { offset: 0, len: size }, bytes);
    assert(slot_bytes(back, i) == splice(zeros, 0, bytes));
    assert(used_bytes(back, i, bytes.len() as usize) =~= bytes);
    lemma_utf8_roundtrip(text);
}

} // verus!
