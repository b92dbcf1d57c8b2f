//! A sliding byte buffer with separate write and read cursors, kept on
//! `circular::Buffer`.
use vstd::prelude::*;

verus! {

#[verifier::external_type_specification]
#[verifier::external_body]
pub struct ExBuffer(circular::Buffer);

/// The unread bytes of a `circular::Buffer`: the slice from its read cursor
/// up to its write cursor.
pub uninterp spec fn buffer_data(b: circular::Buffer) -> Seq<u8>;

/// The read cursor of a `circular::Buffer`: bytes before it are consumed and
/// not yet reclaimed by moving the unread bytes to the front.
pub uninterp spec fn buffer_position(b: circular::Buffer) -> nat;

/// The size of the backing store of a `circular::Buffer`.
pub uninterp spec fn buffer_capacity(b: circular::Buffer) -> nat;

/// Free space after the write cursor.
pub open spec fn buffer_space(b: circular::Buffer) -> int {
    buffer_capacity(b) - buffer_position(b) - buffer_data(b).len()
}

/// Every `circular::Buffer` keeps `position <= end <= capacity`.
pub open spec fn buffer_ok(b: circular::Buffer) -> bool {
    buffer_position(b) + buffer_data(b).len() <= buffer_capacity(b)
}

/// Relies on `circular::Buffer::with_capacity`: a zeroed store of `capacity`
/// bytes with both cursors at 0.
#[verifier::external_body]
fn cb_with_capacity(capacity: usize) -> (r: circular::Buffer)
    requires
        capacity <= isize::MAX,
    ensures
        buffer_data(r) == Seq::<u8>::empty(),
        buffer_position(r) == 0,
        buffer_capacity(r) == capacity,
{
    circular::Buffer::with_capacity(capacity)
}

/// Relies on `circular::Buffer::available_data`: `end - position`.
#[verifier::external_body]
fn cb_available_data(b: &circular::Buffer) -> (r: usize)
    ensures
        r == buffer_data(*b).len(),
{
    b.available_data()
}

/// Relies on `circular::Buffer::available_space`: `capacity - end`.
#[verifier::external_body]
fn cb_available_space(b: &circular::Buffer) -> (r: usize)
    ensures
        r == buffer_space(*b),
{
    b.available_space()
}

/// Relies on `circular::Buffer::capacity`: the size of the store.
#[verifier::external_body]
fn cb_capacity(b: &circular::Buffer) -> (r: usize)
    ensures
        r == buffer_capacity(*b),
{
    b.capacity()
}

/// Relies on `circular::Buffer::position`: the read cursor.
#[verifier::external_body]
fn cb_position(b: &circular::Buffer) -> (r: usize)
    ensures
        r == buffer_position(*b),
{
    b.position()
}

/// Relies on `circular::Buffer::data`: the slice `memory[position..end]`.
#[verifier::external_body]
fn cb_data(b: &circular::Buffer) -> (r: &[u8])
    ensures
        r@ == buffer_data(*b),
{
    b.data()
}

/// Relies on `circular::Buffer::consume`: advances the read cursor by
/// `min(count, available_data)`, then moves the unread bytes to the front
/// when the cursor has passed half of the capacity.
#[verifier::external_body]
fn cb_consume(b: &mut circular::Buffer, count: usize) -> (r: usize)
    ensures
        r == if count <= buffer_data(*old(b)).len() { count as int } else { buffer_data(*old(b)).len() as int },
        buffer_data(*final(b)) == buffer_data(*old(b)).skip(r as int),
        buffer_capacity(*final(b)) == buffer_capacity(*old(b)),
        buffer_position(*final(b)) == if buffer_position(*old(b)) + r > buffer_capacity(*old(b)) / 2 {
            0
        } else {
            buffer_position(*old(b)) + r
        },
{
    b.consume(count)
}

/// Relies on `circular::Buffer::grow`: when `new_size` exceeds the capacity
/// the store is resized to `new_size` and `true` returned; the cursors and the
/// unread bytes stay as they are. Otherwise nothing changes.
#[verifier::external_body]
fn cb_grow(b: &mut circular::Buffer, new_size: usize) -> (r: bool)
    requires
        new_size <= isize::MAX,
    ensures
        r == (new_size > buffer_capacity(*old(b))),
        buffer_data(*final(b)) == buffer_data(*old(b)),
        buffer_position(*final(b)) == buffer_position(*old(b)),
        buffer_capacity(*final(b)) == if r { new_size as nat } else { buffer_capacity(*old(b)) },
{
    b.grow(new_size)
}

/// Relies on `circular::Buffer::shift`: moves the unread bytes to the front of
/// the store and sets the read cursor to 0.
#[verifier::external_body]
fn cb_shift(b: &mut circular::Buffer)
    ensures
        buffer_data(*final(b)) == buffer_data(*old(b)),
        buffer_position(*final(b)) == 0,
        buffer_capacity(*final(b)) == buffer_capacity(*old(b)),
{
    b.shift()
}

/// Relies on `<circular::Buffer as std::io::Write>::write`: copies as many
/// bytes of `bytes` as fit into the space after the write cursor (a write into
/// a `&mut [u8]` copies `min` of both lengths and does not fail), then calls
/// `fill` with that count, which moves the unread bytes to the front when the
/// space left is smaller than the unread bytes plus the count.
#[verifier::external_body]
fn cb_write(b: &mut circular::Buffer, bytes: &[u8]) -> (r: usize)
    ensures
        r == if bytes@.len() <= buffer_space(*old(b)) { bytes@.len() as int } else { buffer_space(*old(b)) },
        buffer_data(*final(b)) == buffer_data(*old(b)) + bytes@.take(r as int),
        buffer_capacity(*final(b)) == buffer_capacity(*old(b)),
        buffer_position(*final(b)) == if buffer_space(*old(b)) - r < buffer_data(*old(b)).len() + 2 * r {
            0
        } else {
            buffer_position(*old(b))
        },
{
    match std::io::Write::write(b, bytes) {
        Ok(n) => n,
        Err(_) => 0,
    }
}


/// What a `SlidingBuffer` holds, as mathematical values.
pub ghost struct BufferView {
    /// The unread bytes, in order.
    pub data: Seq<u8>,
    /// The read cursor: consumed bytes not yet reclaimed lie before it.
    pub position: nat,
    /// The size of the backing store.
    pub capacity: nat,
}

impl BufferView {
    /// Bytes that can still be written after the unread ones.
    pub open spec fn space(self) -> int {
        self.capacity - self.position - self.data.len()
    }
}

/// A growable byte store with a write cursor (end of the unread bytes) and a
/// read cursor (start of the unread bytes).
pub struct SlidingBuffer {
    inner: circular::Buffer,
}

impl View for SlidingBuffer {
    type V = BufferView;

    closed spec fn view(&self) -> BufferView {
        BufferView {
            data: buffer_data(self.inner),
            position: buffer_position(self.inner),
            capacity: buffer_capacity(self.inner),
        }
    }
}

impl SlidingBuffer {
    /// The cursors lie in order within the store, the read cursor in its first
    /// half, and the store can be allocated.
    pub open spec fn wf(&self) -> bool {
        &&& self@.position + self@.data.len() <= self@.capacity
        &&& self@.position <= self@.capacity / 2
        &&& self@.capacity <= isize::MAX
    }

    /// An empty buffer over a store of `capacity` bytes.
    pub fn new(capacity: usize) -> (r: SlidingBuffer)
        requires
            capacity <= isize::MAX,
        ensures
            r.wf(),
            r@.data == Seq::<u8>::empty(),
            r@.position == 0,
            r@.capacity == capacity,
    {
        SlidingBuffer { inner: cb_with_capacity(capacity) }
    }

    /// Number of unread bytes.
    pub fn available_data(&self) -> (r: usize)
        requires
            self.wf(),
        ensures
            r == self@.data.len(),
    {
        cb_available_data(&self.inner)
    }

    /// Number of bytes that can be written before the store is full.
    pub fn available_space(&self) -> (r: usize)
        requires
            self.wf(),
        ensures
            r == self@.space(),
    {
        cb_available_space(&self.inner)
    }

    /// Size of the backing store.
    pub fn capacity(&self) -> (r: usize)
        requires
            self.wf(),
        ensures
            r == self@.capacity,
    {
        cb_capacity(&self.inner)
    }

    /// Number of consumed bytes that still occupy the front of the store.
    pub fn position(&self) -> (r: usize)
        requires
            self.wf(),
        ensures
            r == self@.position,
    {
        cb_position(&self.inner)
    }

    /// The unread bytes. The view must not be kept across a `consume`, `fill`
    /// or `grow`.
    pub fn data(&self) -> (r: &[u8])
        requires
            self.wf(),
        ensures
            r@ == self@.data,
    {
        cb_data(&self.inner)
    }

    /// Marks the first `count` unread bytes as consumed. The unread bytes move
    /// to the front of the store once the read cursor passes half of it.
    pub fn consume(&mut self, count: usize)
        requires
            old(self).wf(),
            count <= old(self)@.data.len(),
        ensures
            final(self).wf(),
            final(self)@.data == old(self)@.data.skip(count as int),
            final(self)@.capacity == old(self)@.capacity,
            count == 0 ==> final(self)@ == old(self)@,
            final(self)@.position == if old(self)@.position + count > old(self)@.capacity / 2 {
                0
            } else {
                old(self)@.position + count
            },
    {
        let _ = cb_consume(&mut self.inner, count);
        proof {
            if count == 0 {
                assert(self@.data =~= old(self)@.data);
            }
        }
    }

    /// Copies as many leading bytes of `bytes` as fit into the free space after
    /// the unread ones and returns how many were copied. The unread bytes may
    /// move to the front of the store; writing nothing changes nothing.
    pub fn fill(&mut self, bytes: &[u8]) -> (r: usize)
        requires
            old(self).wf(),
        ensures
            final(self).wf(),
            r == if bytes@.len() <= old(self)@.space() { bytes@.len() as int } else { old(self)@.space() },
            final(self)@.data == old(self)@.data + bytes@.take(r as int),
            final(self)@.capacity == old(self)@.capacity,
            final(self)@.position == 0 || final(self)@.position == old(self)@.position,
            r == 0 ==> final(self)@ == old(self)@,
            bytes@.len() == 0 ==> r == 0 && final(self)@ == old(self)@,
    {
        if bytes.len() == 0 {
            proof {
                assert(old(self)@.data + bytes@.take(0) =~= old(self)@.data);
            }
            return 0;
        }
        let space = cb_available_space(&self.inner);
        if space == 0 {
            proof {
                assert(old(self)@.data + bytes@.take(0) =~= old(self)@.data);
            }
            return 0;
        }
        cb_write(&mut self.inner, bytes)
    }

    /// Enlarges the store to `new_capacity` bytes when that exceeds the current
    /// capacity, moving the unread bytes to its front; returns whether it did.
    /// A smaller or equal `new_capacity` changes nothing.
    pub fn grow(&mut self, new_capacity: usize) -> (r: bool)
        requires
            old(self).wf(),
            new_capacity <= isize::MAX,
        ensures
            final(self).wf(),
            r == (new_capacity > old(self)@.capacity),
            final(self)@.data == old(self)@.data,
            final(self)@.capacity == if r { new_capacity as nat } else { old(self)@.capacity },
            final(self)@.capacity >= old(self)@.capacity,
            r ==> final(self)@.position == 0,
            !r ==> final(self)@ == old(self)@,
    {
        let grown = cb_grow(&mut self.inner, new_capacity);
        if grown {
            cb_shift(&mut self.inner);
        }
        grown
    }
}

/// The unread bytes and the free space after them fill the store but for the
/// consumed bytes not yet reclaimed at its front.
pub proof fn lemma_accounting(b: &SlidingBuffer)
    requires
        b.wf(),
    ensures
        b@.data.len() + b@.space() == b@.capacity - b@.position,
        0 <= b@.space(),
{
}

} // verus!
