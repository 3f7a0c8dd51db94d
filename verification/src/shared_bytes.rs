use crate::range::{above_lower, below_upper, end_offset, range_admits, start_offset, ByteRange, SliceBound};
use std::sync::Arc;
use vstd::prelude::*;
use vstd::slice::slice_subrange;

verus! {

/// `Arc::clone`: hands out one more owner of the same allocation. Trusted to give
/// a value equal to `data`; that the allocation is the same one (no copy) is what
/// `Arc::clone` documents and is not stated here.
#[verifier::external_body]
fn share_buffer(data: &Arc<[u8]>) -> (r: Arc<[u8]>)
    ensures
        r == *data,
{
    Arc::clone(data)
}

/// `<Arc<[u8]> as From<Vec<u8>>>::from`: moves the bytes of `v` into a new
/// reference-counted allocation. Trusted to keep the bytes, in order.
#[verifier::external_body]
fn buffer_from_vec(v: Vec<u8>) -> (r: Arc<[u8]>)
    ensures
        (*r)@ == v@,
{
    Arc::from(v)
}

/// `<Arc<[u8]> as From<Box<[u8]>>>::from`: moves the bytes of `b` into a new
/// reference-counted allocation. Trusted to keep the bytes, in order.
#[verifier::external_body]
fn buffer_from_box(b: Box<[u8]>) -> (r: Arc<[u8]>)
    ensures
        (*r)@ == (*b)@,
{
    Arc::from(b)
}

/// `<[u8] as Hash>::hash`: feeds `bytes` into `state`. Nothing is claimed of the
/// hasher's state afterwards; the hash depends on the bytes alone by the slice's
/// own `Hash` impl, which is not stated here.
#[verifier::external_body]
fn hash_bytes<H: std::hash::Hasher>(bytes: &[u8], state: &mut H) {
    std::hash::Hash::hash(bytes, state)
}

/// The bytes that `range` selects out of `bytes`.
pub open spec fn sliced(bytes: Seq<u8>, lower: SliceBound, upper: SliceBound) -> Seq<u8> {
    bytes.subrange(start_offset(lower), end_offset(upper, bytes.len() as int))
}

/// Whether `lower` and `upper` select a range of a sequence of length `len`.
pub open spec fn selects_within(lower: SliceBound, upper: SliceBound, len: int) -> bool {
    start_offset(lower) <= end_offset(upper, len) <= len
}

/// Slicing with both ends open selects every byte.
pub proof fn lemma_full_range_is_identity(bytes: Seq<u8>)
    ensures
        selects_within(SliceBound::Unbounded, SliceBound::Unbounded, bytes.len() as int),
        sliced(bytes, SliceBound::Unbounded, SliceBound::Unbounded) == bytes,
{
    assert(bytes.subrange(0, bytes.len() as int) =~= bytes);
}

/// Slicing a slice selects the same bytes as one slice of the original, whose
/// offsets are the inner offsets shifted by the start of the outer slice.
pub proof fn lemma_slice_of_slice(
    bytes: Seq<u8>,
    lower1: SliceBound,
    upper1: SliceBound,
    lower2: SliceBound,
    upper2: SliceBound,
)
    requires
        selects_within(lower1, upper1, bytes.len() as int),
        selects_within(lower2, upper2, sliced(bytes, lower1, upper1).len() as int),
    ensures
        ({
            let outer = sliced(bytes, lower1, upper1);
            let start = start_offset(lower1) + start_offset(lower2);
            let end = start_offset(lower1) + end_offset(upper2, outer.len() as int);
            &&& 0 <= start <= end <= bytes.len()
            &&& sliced(outer, lower2, upper2) == bytes.subrange(start, end)
        }),
{
    let outer = sliced(bytes, lower1, upper1);
    let start = start_offset(lower1) + start_offset(lower2);
    let end = start_offset(lower1) + end_offset(upper2, outer.len() as int);
    assert(sliced(outer, lower2, upper2) =~= bytes.subrange(start, end));
}

/// The length of a slice is the distance between the offsets its bounds select.
pub proof fn lemma_slice_len(bytes: Seq<u8>, lower: SliceBound, upper: SliceBound)
    requires
        selects_within(lower, upper, bytes.len() as int),
    ensures
        sliced(bytes, lower, upper).len() == end_offset(upper, bytes.len() as int) - start_offset(
            lower,
        ),
{
}

/// A value that covers its whole buffer shows exactly the buffer's bytes, so what
/// `into_arc` hands back is what the value showed.
pub proof fn lemma_covering_window_is_buffer(bytes: SharedBytes)
    requires
        bytes.is_window(),
        bytes.covers_buffer(),
    ensures
        bytes@ == bytes.buffer(),
{
    assert(bytes.buffer().subrange(0, bytes.buffer().len() as int) =~= bytes.buffer());
}

/// A slice holds, in order, exactly the bytes whose offsets both bounds admit: an
/// `Included(n)` lower bound admits offsets from `n` on, an `Excluded(n)` one those
/// after `n`; an `Included(n)` upper bound admits offsets up to `n`, an `Excluded(n)`
/// one those before `n`; an open side admits every offset.
pub proof fn lemma_slice_selects_admitted(bytes: Seq<u8>, lower: SliceBound, upper: SliceBound)
    requires
        selects_within(lower, upper, bytes.len() as int),
    ensures
        ({
            let s = sliced(bytes, lower, upper);
            let a = start_offset(lower);
            &&& forall|k: int| 0 <= k < s.len() ==> s[k] == bytes[a + k]
            &&& forall|i: int|
                0 <= i < bytes.len() ==> (above_lower(lower, i) && below_upper(upper, i) <==> a
                    <= i < a + s.len())
        }),
{
}

/// Two byte buffers are equal exactly when they have the same length and agree at
/// every offset, wherever their bytes sit in their buffers.
pub proof fn lemma_eq_is_bytewise(a: SharedBytes, b: SharedBytes)
    ensures
        vstd::std_specs::cmp::PartialEqSpec::eq_spec(&a, &b) <==> (a@.len() == b@.len() && forall|i: int|
            0 <= i < a@.len() ==> a@[i] == b@[i]),
{
    if a@.len() == b@.len() && forall|i: int| 0 <= i < a@.len() ==> a@[i] == b@[i] {
        assert(a@ =~= b@);
    }
}

/// A value that wraps `data` whole (as `new` and `From<Arc<[u8]>>` give) hands that
/// same allocation back from `into_arc`.
pub proof fn lemma_wrap_then_unwrap(bytes: SharedBytes, data: Arc<[u8]>)
    requires
        bytes.shared() == data,
        bytes.offset() == 0,
        bytes@ == (*data)@,
    ensures
        bytes.covers_buffer(),
        (if bytes.covers_buffer() {
            Some(bytes.shared())
        } else {
            None
        }) == Some(data),
{
}

/// A reference-counted byte buffer that supports zero-copy slicing.
pub struct SharedBytes {
    data: Arc<[u8]>,
    start: usize,
    end: usize,
}

impl SharedBytes {
    #[verifier::type_invariant]
    spec fn inv(self) -> bool {
        self.start <= self.end <= (*self.data)@.len()
    }

    /// The whole underlying buffer, of which this value shows a window.
    pub closed spec fn buffer(&self) -> Seq<u8> {
        (*self.data)@
    }

    /// The shared allocation that holds this value's bytes. Verus compares two of these
    /// by what they hold, so an equality between them says that the bytes are the same,
    /// not that the allocation is.
    pub closed spec fn shared(&self) -> Arc<[u8]> {
        self.data
    }

    /// The offset in the underlying buffer at which this value's bytes begin.
    pub closed spec fn offset(&self) -> int {
        self.start as int
    }

    /// Whether this value shows the whole underlying buffer.
    pub open spec fn covers_buffer(&self) -> bool {
        self.offset() == 0 && self@.len() == self.buffer().len()
    }

    /// Whether this value's bytes are those of its buffer from its offset on.
    pub open spec fn is_window(&self) -> bool {
        &&& 0 <= self.offset()
        &&& self.offset() + self@.len() <= self.buffer().len()
        &&& self@ == self.buffer().subrange(self.offset(), self.offset() + self@.len())
    }

    /// Creates a new `SharedBytes` from an `Arc<[u8]>`.
    pub fn new(data: Arc<[u8]>) -> (r: Self)
        ensures
            r@ == (*data)@,
            r.buffer() == (*data)@,
            r.shared() == data,
            r.offset() == 0,
            r.is_window(),
    {
        let end = data.len();
        let r = SharedBytes { data, start: 0, end };
        assert(r@ =~= r.buffer().subrange(0, r@.len() as int));
        r
    }

    /// Returns the length of this byte slice.
    pub fn len(&self) -> (r: usize)
        ensures
            r == self@.len(),
    {
        proof {
            use_type_invariant(self);
        }
        self.end - self.start
    }

    /// Returns `true` if this byte slice is empty.
    pub fn is_empty(&self) -> (r: bool)
        ensures
            r == (self@.len() == 0),
    {
        proof {
            use_type_invariant(self);
        }
        self.start == self.end
    }

    /// Creates a new `SharedBytes` that references a subslice of this buffer (O(1), no copy).
    pub fn slice<R: ByteRange>(&self, range: R) -> (r: Self)
        requires
            selects_within(range.lower(), range.upper(), self@.len() as int),
        ensures
            r@ == sliced(self@, range.lower(), range.upper()),
            r.buffer() == self.buffer(),
            r.shared() == self.shared(),
            r.offset() == self.offset() + start_offset(range.lower()),
            r.is_window(),
            forall|i: int|
                0 <= i < self@.len() ==> (range_admits(range, i) <==> start_offset(range.lower())
                    <= i < start_offset(range.lower()) + r@.len()),
    {
        proof {
            use_type_invariant(self);
        }
        let len = self.len();
        let start = match range.start_bound() {
            SliceBound::Included(n) => n,
            SliceBound::Excluded(n) => n + 1,
            SliceBound::Unbounded => 0,
        };
        let end = match range.end_bound() {
            SliceBound::Included(n) => n + 1,
            SliceBound::Excluded(n) => n,
            SliceBound::Unbounded => len,
        };
        let r = SharedBytes {
            data: share_buffer(&self.data),
            start: self.start + start,
            end: self.start + end,
        };
        assert(r@ =~= sliced(self@, range.lower(), range.upper()));
        assert(r@ =~= r.buffer().subrange(r.offset(), r.offset() + r@.len()));
        proof {
            lemma_slice_selects_admitted(self@, range.lower(), range.upper());
        }
        r
    }

    /// Returns the underlying Arc if this covers the entire buffer, otherwise `None`.
    pub fn into_arc(self) -> (r: Option<Arc<[u8]>>)
        ensures
            r is Some <==> self.covers_buffer(),
            r == (if self.covers_buffer() {
                Some(self.shared())
            } else {
                None
            }),
            r matches Some(data) ==> (*data)@ == self.buffer() && (*data)@ == self@,
    {
        proof {
            use_type_invariant(&self);
        }
        if self.start == 0 && self.end == self.data.len() {
            assert(self@ =~= self.buffer());
            Some(self.data)
        } else {
            None
        }
    }

    /// The shared allocation that holds this value's bytes.
    pub fn shared_buffer(&self) -> (r: &Arc<[u8]>)
        ensures
            (**r)@ == self.buffer(),
            *r == self.shared(),
    {
        &self.data
    }

    /// The bytes of this value, borrowed from the shared buffer.
    pub fn as_slice(&self) -> (r: &[u8])
        ensures
            r@ == self@,
    {
        proof {
            use_type_invariant(self);
        }
        slice_subrange(&*self.data, self.start, self.end)
    }
}

impl From<Vec<u8>> for SharedBytes {
    fn from(vec: Vec<u8>) -> (r: Self)
        ensures
            r@ == vec@,
            r.covers_buffer(),
            r.is_window(),
    {
        Self::new(buffer_from_vec(vec))
    }
}

/// A conversion into `SharedBytes` makes or takes an allocation that no spec expression
/// can name, so the generic `From` clause is off here; the `ensures` of `from` above
/// states the result.
impl vstd::std_specs::convert::FromSpecImpl<Vec<u8>> for SharedBytes {
    open spec fn obeys_from_spec() -> bool {
        false
    }

    open spec fn from_spec(v: Vec<u8>) -> Self {
        arbitrary()
    }
}

impl From<Arc<[u8]>> for SharedBytes {
    fn from(data: Arc<[u8]>) -> (r: Self)
        ensures
            r@ == (*data)@,
            r.buffer() == (*data)@,
            r.shared() == data,
            r.covers_buffer(),
            r.is_window(),
    {
        Self::new(data)
    }
}

/// A conversion into `SharedBytes` makes or takes an allocation that no spec expression
/// can name, so the generic `From` clause is off here; the `ensures` of `from` above
/// states the result.
impl vstd::std_specs::convert::FromSpecImpl<Arc<[u8]>> for SharedBytes {
    open spec fn obeys_from_spec() -> bool {
        false
    }

    open spec fn from_spec(v: Arc<[u8]>) -> Self {
        arbitrary()
    }
}

impl From<&[u8]> for SharedBytes {
    fn from(slice: &[u8]) -> (r: Self)
        ensures
            r@ == slice@,
            r.covers_buffer(),
            r.is_window(),
    {
        Self::from(vstd::slice::slice_to_vec(slice))
    }
}

/// A conversion into `SharedBytes` makes or takes an allocation that no spec expression
/// can name, so the generic `From` clause is off here; the `ensures` of `from` above
/// states the result.
impl vstd::std_specs::convert::FromSpecImpl<&[u8]> for SharedBytes {
    open spec fn obeys_from_spec() -> bool {
        false
    }

    open spec fn from_spec(v: &[u8]) -> Self {
        arbitrary()
    }
}

impl From<Box<[u8]>> for SharedBytes {
    fn from(boxed: Box<[u8]>) -> (r: Self)
        ensures
            r@ == (*boxed)@,
            r.covers_buffer(),
            r.is_window(),
    {
        Self::new(buffer_from_box(boxed))
    }
}

/// A conversion into `SharedBytes` makes or takes an allocation that no spec expression
/// can name, so the generic `From` clause is off here; the `ensures` of `from` above
/// states the result.
impl vstd::std_specs::convert::FromSpecImpl<Box<[u8]>> for SharedBytes {
    open spec fn obeys_from_spec() -> bool {
        false
    }

    open spec fn from_spec(v: Box<[u8]>) -> Self {
        arbitrary()
    }
}

impl Clone for SharedBytes {
    fn clone(&self) -> (r: Self)
        ensures
            r == *self,
    {
        proof {
            use_type_invariant(self);
        }
        SharedBytes { data: share_buffer(&self.data), start: self.start, end: self.end }
    }
}

impl std::ops::Deref for SharedBytes {
    type Target = [u8];

    fn deref(&self) -> (r: &[u8])
        ensures
            r@ == self@,
    {
        self.as_slice()
    }
}

impl AsRef<[u8]> for SharedBytes {
    fn as_ref(&self) -> (r: &[u8])
        ensures
            r@ == self@,
    {
        self.as_slice()
    }
}

impl PartialEq for SharedBytes {
    fn eq(&self, other: &Self) -> (r: bool)
        ensures
            r == (self@ == other@),
    {
        let a = self.as_slice();
        let b = other.as_slice();
        if a.len() != b.len() {
            return false;
        }
        let mut i: usize = 0;
        while i < a.len()
            invariant
                a@ == self@,
                b@ == other@,
                a@.len() == b@.len(),
                0 <= i <= a@.len(),
                a@.subrange(0, i as int) == b@.subrange(0, i as int),
            decreases a@.len() - i,
        {
            if a[i] != b[i] {
                assert(a@[i as int] != b@[i as int]);
                return false;
            }
            assert(a@.subrange(0, i + 1) =~= a@.subrange(0, i as int).push(a@[i as int]));
            assert(b@.subrange(0, i + 1) =~= b@.subrange(0, i as int).push(b@[i as int]));
            i = i + 1;
        }
        assert(a@ =~= a@.subrange(0, i as int));
        assert(b@ =~= b@.subrange(0, i as int));
        true
    }
}

impl vstd::std_specs::cmp::PartialEqSpecImpl for SharedBytes {
    open spec fn obeys_eq_spec() -> bool {
        true
    }

    open spec fn eq_spec(&self, other: &Self) -> bool {
        self@ == other@
    }
}

impl Eq for SharedBytes {}

impl std::hash::Hash for SharedBytes {
    fn hash<H: std::hash::Hasher>(&self, state: &mut H) {
        hash_bytes(self.as_slice(), state)
    }
}

/// `std::fmt::Formatter`, carried through `Debug::fmt` unread.
#[verifier::external_type_specification]
#[verifier::external_body]
pub struct ExFormatter<'a>(std::fmt::Formatter<'a>);

/// `std::fmt::Error`, the error of `Debug::fmt`.
#[verifier::external_type_specification]
#[verifier::external_body]
pub struct ExFmtError(std::fmt::Error);

/// `Formatter::debug_struct`: writes a `SharedBytes` debug record with the three fields
/// given. Nothing is claimed of what is written.
#[verifier::external_body]
fn write_debug_fields(
    f: &mut std::fmt::Formatter<'_>,
    len: usize,
    start: usize,
    end: usize,
) -> std::fmt::Result {
    f.debug_struct("SharedBytes").field("len", &len).field("start", &start).field("end", &end).finish()
}

impl SharedBytes {
    /// The length of this value and the offsets of its window in the buffer, as its
    /// debug form shows them.
    pub fn debug_fields(&self) -> (r: (usize, usize, usize))
        ensures
            r.0 == self@.len(),
            r.1 == self.offset(),
            r.2 == self.offset() + self@.len(),
    {
        proof {
            use_type_invariant(self);
        }
        (self.len(), self.start, self.end)
    }
}

impl std::fmt::Debug for SharedBytes {
    fn fmt(&self, f: &mut std::fmt::Formatter<'_>) -> std::fmt::Result {
        let (len, start, end) = self.debug_fields();
        write_debug_fields(f, len, start, end)
    }
}

impl View for SharedBytes {
    type V = Seq<u8>;

    closed spec fn view(&self) -> Seq<u8> {
        (*self.data)@.subrange(self.start as int, self.end as int)
    }
}

} // verus!
