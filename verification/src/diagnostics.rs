//! Aggregation of raw readings into manufacturing reports.
//!
//! The buffer opens with two bytes: a ready flag and the strobe that is
//! collected next. Each collected strobe adds one segment: the strobe, the
//! number of rows, and two bytes per row that hold the row's reading, low
//! byte first. A segment is written with every row set to the sentinel
//! `0xFFFF`, a value that no reading can have; readings overwrite the
//! sentinel of their row as they arrive, in any order, so a report is well
//! formed even where rows are missing. The buffer is marked ready when
//! another segment would reach its capacity, and starts over when it is
//! flushed.
use vstd::prelude::*;

verus! {

/// Number of bytes that the report buffer can hold.
pub const REPORT_CAPACITY: usize = 252;

/// Number of bytes in front of the segments: ready flag and strobe cursor.
pub const REPORT_HEADER: usize = 2;

/// Number of bytes in front of the rows of a segment: strobe and row count.
pub const SEGMENT_HEADER: usize = 2;

/// Number of bytes of one reading.
pub const SAMPLE_WIDTH: usize = 2;

/// Byte that fills the slot of a row without a reading.
pub const SENTINEL: u8 = 0xFF;

/// Largest number of rows of which one segment fits the buffer.
pub const MAX_REPORT_ROWS: usize = 124;

/// `heapless::Vec`, a vector of fixed capacity. The contracts speak of
/// what such a vector holds through `buffer_bytes` and of nothing else.
#[verifier::external_type_specification]
#[verifier::external_body]
#[verifier::reject_recursive_types(T)]
pub struct ExHeaplessVec<T, const N: usize>(heapless::Vec<T, N>);

/// The bytes that a fixed-capacity report vector holds, first to last.
pub uninterp spec fn buffer_bytes(v: heapless::Vec<u8, REPORT_CAPACITY>) -> Seq<u8>;

/// `heapless::Vec::new`: the new vector holds nothing.
#[verifier::external_body]
pub(crate) fn buffer_new() -> (v: heapless::Vec<u8, REPORT_CAPACITY>)
    ensures
        buffer_bytes(v) == Seq::<u8>::empty(),
{
    heapless::Vec::new()
}

/// `len` of the vector as a slice: the number of bytes held.
#[verifier::external_body]
pub(crate) fn buffer_len(v: &heapless::Vec<u8, REPORT_CAPACITY>) -> (n: usize)
    ensures
        n == buffer_bytes(*v).len(),
{
    v.len()
}

/// `heapless::Vec::push`: appends the byte if the vector holds fewer
/// bytes than its capacity, and otherwise leaves it as it is.
#[verifier::external_body]
pub(crate) fn buffer_push(v: &mut heapless::Vec<u8, REPORT_CAPACITY>, byte: u8) -> (pushed: bool)
    ensures
        pushed == (buffer_bytes(*old(v)).len() < REPORT_CAPACITY),
        pushed ==> buffer_bytes(*final(v)) == buffer_bytes(*old(v)).push(byte),
        !pushed ==> buffer_bytes(*final(v)) == buffer_bytes(*old(v)),
{
    v.push(byte).is_ok()
}

/// `heapless::Vec::resize`: a length within the capacity is reached by
/// appending copies of `byte` or by dropping bytes from the end; a length
/// beyond the capacity is refused and leaves the vector as it is.
#[verifier::external_body]
pub(crate) fn buffer_resize(
    v: &mut heapless::Vec<u8, REPORT_CAPACITY>,
    new_len: usize,
    byte: u8,
) -> (resized: bool)
    ensures
        resized == (new_len <= REPORT_CAPACITY),
        resized && new_len >= buffer_bytes(*old(v)).len() ==> buffer_bytes(*final(v))
            == buffer_bytes(*old(v)) + Seq::new(
            (new_len - buffer_bytes(*old(v)).len()) as nat,
            |i: int| byte,
        ),
        resized && new_len < buffer_bytes(*old(v)).len() ==> buffer_bytes(*final(v))
            == buffer_bytes(*old(v)).take(new_len as int),
        !resized ==> buffer_bytes(*final(v)) == buffer_bytes(*old(v)),
{
    v.resize(new_len, byte).is_ok()
}

/// `heapless::Vec::extend_from_slice`: appends the bytes if all of them
/// fit, and otherwise leaves the vector as it is.
#[verifier::external_body]
pub(crate) fn buffer_extend(v: &mut heapless::Vec<u8, REPORT_CAPACITY>, bytes: &[u8]) -> (extended:
    bool)
    ensures
        extended == (buffer_bytes(*old(v)).len() + bytes@.len() <= REPORT_CAPACITY),
        extended ==> buffer_bytes(*final(v)) == buffer_bytes(*old(v)) + bytes@,
        !extended ==> buffer_bytes(*final(v)) == buffer_bytes(*old(v)),
{
    v.extend_from_slice(bytes).is_ok()
}

/// Indexing of the vector as a slice: the byte at `index`.
#[verifier::external_body]
pub(crate) fn buffer_get(v: &heapless::Vec<u8, REPORT_CAPACITY>, index: usize) -> (byte: u8)
    requires
        index < buffer_bytes(*v).len(),
    ensures
        byte == buffer_bytes(*v)[index as int],
{
    v[index]
}

/// Assignment through the index of the vector as a slice: the byte at
/// `index` is replaced, all others stay.
#[verifier::external_body]
pub(crate) fn buffer_set(v: &mut heapless::Vec<u8, REPORT_CAPACITY>, index: usize, byte: u8)
    requires
        index < buffer_bytes(*old(v)).len(),
    ensures
        buffer_bytes(*final(v)) == buffer_bytes(*old(v)).update(index as int, byte),
{
    v[index] = byte;
}

/// `heapless::Vec::clear`: the vector holds nothing afterwards.
#[verifier::external_body]
pub(crate) fn buffer_clear(v: &mut heapless::Vec<u8, REPORT_CAPACITY>)
    ensures
        buffer_bytes(*final(v)) == Seq::<u8>::empty(),
{
    v.clear();
}

/// `to_vec` of the vector as a slice: a copy of the bytes held.
#[verifier::external_body]
pub(crate) fn buffer_to_vec(v: &heapless::Vec<u8, REPORT_CAPACITY>) -> (bytes: Vec<u8>)
    ensures
        bytes@ == buffer_bytes(*v),
{
    v.as_slice().to_vec()
}

/// Number of bytes of a segment of `rows` rows.
pub open spec fn segment_len(rows: nat) -> nat {
    SEGMENT_HEADER as nat + rows * SAMPLE_WIDTH as nat
}

/// A segment for `strobe` in which no row has a reading yet.
pub open spec fn empty_segment(strobe: u8, rows: nat) -> Seq<u8> {
    seq![strobe, rows as u8] + Seq::new(rows * SAMPLE_WIDTH as nat, |i: int| SENTINEL)
}

/// Position of the slot of `row` in the last segment of `bytes`.
pub open spec fn slot_position(bytes: Seq<u8>, rows: nat, row: nat) -> int {
    bytes.len() - rows * SAMPLE_WIDTH as nat + row * SAMPLE_WIDTH as nat
}

/// `bytes` with `value` written to the slot of `row` in the last segment,
/// low byte first.
pub open spec fn with_reading(bytes: Seq<u8>, rows: nat, row: nat, value: u16) -> Seq<u8> {
    let at = slot_position(bytes, rows, row);
    bytes.update(at, (value % 256) as u8).update(at + 1, (value / 256) as u8)
}

/// The reading in the slot of `row` in the last segment of `bytes`;
/// none where the slot still holds the sentinel.
pub open spec fn slot_reading(bytes: Seq<u8>, rows: nat, row: nat) -> Option<u16> {
    let at = slot_position(bytes, rows, row);
    if bytes[at] == SENTINEL && bytes[at + 1] == SENTINEL {
        None
    } else {
        Some((bytes[at] as nat + 256 * bytes[at + 1] as nat) as u16)
    }
}

/// Whether a buffer of `segments` segments that holds `bytes` is collecting
/// `strobe` into its last segment: it is not ready, `strobe` is the strobe
/// to collect, and the last segment belongs to it.
pub open spec fn segment_open(bytes: Seq<u8>, rows: nat, segments: nat, strobe: u8) -> bool {
    &&& bytes[0] == 0
    &&& bytes[1] == strobe
    &&& segments > 0
    &&& bytes[bytes.len() - segment_len(rows)] == strobe
}

/// What collecting a reading makes of the bytes of a buffer: the reading
/// is written if the segment of `strobe` is open and has the row, and
/// otherwise nothing changes.
pub open spec fn collected(
    bytes: Seq<u8>,
    rows: nat,
    segments: nat,
    strobe: u8,
    row: nat,
    value: u16,
) -> Seq<u8> {
    if segment_open(bytes, rows, segments, strobe) && row < rows {
        with_reading(bytes, rows, row, value)
    } else {
        bytes
    }
}

/// What closing a strobe makes of the bytes of a buffer that is not
/// ready: the strobe to collect becomes `next`, and the ready flag is set
/// if another segment would reach the capacity.
pub open spec fn finished(bytes: Seq<u8>, rows: nat, next: u8) -> Seq<u8> {
    if bytes[0] != 0 {
        bytes
    } else {
        bytes.update(1, next).update(
            0,
            if bytes.len() + segment_len(rows) >= REPORT_CAPACITY {
                1u8
            } else {
                0u8
            },
        )
    }
}

/// Bounded buffer of raw readings for the manufacturing level check.
pub struct ManufacturingBuffer {
    data: heapless::Vec<u8, REPORT_CAPACITY>,
    rows: usize,
    segments: usize,
}

impl ManufacturingBuffer {
    /// The bytes held: ready flag, strobe cursor, then the segments.
    pub closed spec fn bytes(&self) -> Seq<u8> {
        buffer_bytes(self.data)
    }

    /// Number of rows of every segment.
    pub closed spec fn rows(&self) -> nat {
        self.rows as nat
    }

    /// Number of segments held.
    pub closed spec fn segments(&self) -> nat {
        self.segments as nat
    }

    /// Whether the buffer has been marked ready; it then takes no more data.
    pub open spec fn ready(&self) -> bool {
        self.bytes()[0] != 0
    }

    /// The strobe whose readings are collected next.
    pub open spec fn cursor(&self) -> u8 {
        self.bytes()[1]
    }

    /// The header is followed by whole segments, within the capacity.
    pub open spec fn wf(&self) -> bool {
        &&& 0 < self.rows() <= MAX_REPORT_ROWS
        &&& self.bytes().len() == REPORT_HEADER + self.segments() * segment_len(self.rows())
        &&& self.bytes().len() <= REPORT_CAPACITY
    }

    /// Whether the readings of `strobe` would be collected now.
    pub open spec fn collects(&self, strobe: u8) -> bool {
        !self.ready() && self.cursor() == strobe
    }

    /// Whether a new segment still fits.
    pub open spec fn has_room(&self) -> bool {
        self.bytes().len() + segment_len(self.rows()) <= REPORT_CAPACITY
    }

    /// Whether the last segment exists, belongs to `strobe` and is still
    /// being collected.
    pub open spec fn collecting(&self, strobe: u8) -> bool {
        segment_open(self.bytes(), self.rows(), self.segments(), strobe)
    }

    /// An empty buffer for segments of `rows` rows that collects strobe 0
    /// first. There is none for zero rows, nor for so many rows that not
    /// even one segment would fit.
    pub fn new(rows: usize) -> (made: Option<Self>)
        ensures
            made is Some <==> 0 < rows <= MAX_REPORT_ROWS,
            made is Some ==> {
                let buffer = made->0;
                &&& buffer.wf()
                &&& buffer.rows() == rows
                &&& buffer.segments() == 0
                &&& buffer.bytes() == seq![0u8, 0u8]
            },
    {
        if rows == 0 || rows > MAX_REPORT_ROWS {
            return None;
        }
        let mut data = buffer_new();
        let _ = buffer_push(&mut data, 0);
        let _ = buffer_push(&mut data, 0);
        proof {
            assert(buffer_bytes(data) =~= seq![0u8, 0u8]);
            assert(0 * segment_len(rows as nat) == 0) by (nonlinear_arith);
        }
        Some(ManufacturingBuffer { data, rows, segments: 0 })
    }

    /// Number of rows of every segment.
    pub fn row_count(&self) -> (rows: usize)
        ensures
            rows == self.rows(),
    {
        self.rows
    }

    /// Whether the buffer has been marked ready.
    pub fn is_ready(&self) -> (ready: bool)
        requires
            self.wf(),
        ensures
            ready == self.ready(),
    {
        buffer_get(&self.data, 0) != 0
    }

    /// Opens a segment for `strobe`, with the sentinel in every row, if
    /// the buffer is not ready, `strobe` is the strobe to collect next and
    /// the segment fits. Says whether it did.
    pub fn begin_strobe(&mut self, strobe: u8) -> (opened: bool)
        requires
            old(self).wf(),
        ensures
            final(self).wf(),
            final(self).rows() == old(self).rows(),
            opened == (old(self).collects(strobe) && old(self).has_room()),
            opened ==> {
                &&& final(self).bytes() == old(self).bytes() + empty_segment(
                    strobe,
                    old(self).rows(),
                )
                &&& final(self).segments() == old(self).segments() + 1
                &&& final(self).collecting(strobe)
            },
            !opened ==> {
                &&& final(self).bytes() == old(self).bytes()
                &&& final(self).segments() == old(self).segments()
            },
    {
        let len: usize = buffer_len(&self.data);
        let ready: bool = buffer_get(&self.data, 0) != 0;
        let cursor: u8 = buffer_get(&self.data, 1);
        let need: usize = SEGMENT_HEADER + self.rows * SAMPLE_WIDTH;
        if ready || cursor != strobe || len + need > REPORT_CAPACITY {
            return false;
        }
        let ghost before = self.bytes();
        let _ = buffer_push(&mut self.data, strobe);
        let _ = buffer_push(&mut self.data, self.rows as u8);
        let _ = buffer_resize(&mut self.data, len + need, SENTINEL);
        proof {
            lemma_segment_count_fits(self.segments as nat, self.rows as nat);
            assert(self.bytes() =~= before + empty_segment(strobe, self.rows as nat));
            assert((self.segments + 1) * segment_len(self.rows as nat) == self.segments
                * segment_len(self.rows as nat) + segment_len(self.rows as nat))
                by (nonlinear_arith);
        }
        self.segments = self.segments + 1;
        true
    }

    /// Writes a reading to the slot of `row` in the segment of `strobe`,
    /// low byte first, if that segment is the one being collected and has
    /// such a row. Says whether it did.
    pub fn collect(&mut self, strobe: u8, row: usize, value: u16) -> (written: bool)
        requires
            old(self).wf(),
        ensures
            final(self).wf(),
            final(self).rows() == old(self).rows(),
            final(self).segments() == old(self).segments(),
            written == (old(self).collecting(strobe) && row < old(self).rows()),
            final(self).bytes() == collected(
                old(self).bytes(),
                old(self).rows(),
                old(self).segments(),
                strobe,
                row as nat,
                value,
            ),
    {
        let len: usize = buffer_len(&self.data);
        let need: usize = SEGMENT_HEADER + self.rows * SAMPLE_WIDTH;
        if self.segments == 0 || row >= self.rows {
            return false;
        }
        proof {
            lemma_last_segment_inside(self.segments as nat, self.rows as nat);
        }
        let ready: bool = buffer_get(&self.data, 0) != 0;
        let cursor: u8 = buffer_get(&self.data, 1);
        let owner: u8 = buffer_get(&self.data, len - need);
        if ready || cursor != strobe || owner != strobe {
            return false;
        }
        let at: usize = len - self.rows * SAMPLE_WIDTH + row * SAMPLE_WIDTH;
        let low: u8 = (value % 256) as u8;
        let high: u8 = (value / 256) as u8;
        buffer_set(&mut self.data, at, low);
        buffer_set(&mut self.data, at + 1, high);
        true
    }

    /// Closes the strobe that was collected: the strobe to collect next
    /// is `next`, and the buffer becomes ready if another segment would
    /// reach its capacity. A buffer that is already ready stays as it is.
    pub fn finish_strobe(&mut self, next: u8)
        requires
            old(self).wf(),
        ensures
            final(self).wf(),
            final(self).rows() == old(self).rows(),
            final(self).segments() == old(self).segments(),
            final(self).bytes() == finished(old(self).bytes(), old(self).rows(), next),
    {
        let len: usize = buffer_len(&self.data);
        let ready: bool = buffer_get(&self.data, 0) != 0;
        if ready {
            return ;
        }
        let need: usize = SEGMENT_HEADER + self.rows * SAMPLE_WIDTH;
        buffer_set(&mut self.data, 1, next);
        if len + need >= REPORT_CAPACITY {
            buffer_set(&mut self.data, 0, 1);
        } else {
            buffer_set(&mut self.data, 0, 0);
        }
    }

    /// Hands out everything that was collected and starts over: the
    /// report is the whole buffer, header included, and the buffer is empty
    /// again, not ready, and collects strobe 0 next.
    pub fn flush(&mut self) -> (report: Vec<u8>)
        requires
            old(self).wf(),
        ensures
            final(self).wf(),
            final(self).rows() == old(self).rows(),
            final(self).segments() == 0,
            final(self).bytes() == seq![0u8, 0u8],
            report@ == old(self).bytes(),
            report@.len() == REPORT_HEADER + old(self).segments() * segment_len(old(self).rows()),
    {
        let report = buffer_to_vec(&self.data);
        buffer_clear(&mut self.data);
        let _ = buffer_push(&mut self.data, 0);
        let _ = buffer_push(&mut self.data, 0);
        proof {
            assert(buffer_bytes(self.data) =~= seq![0u8, 0u8]);
            assert(0 * segment_len(self.rows as nat) == 0) by (nonlinear_arith);
        }
        self.segments = 0;
        report
    }

    /// Flushes the buffer if it has been marked ready, and otherwise
    /// leaves it alone.
    pub fn try_flush(&mut self) -> (report: Option<Vec<u8>>)
        requires
            old(self).wf(),
        ensures
            final(self).wf(),
            final(self).rows() == old(self).rows(),
            report is Some <==> old(self).ready(),
            report is Some ==> {
                &&& report->0@ == old(self).bytes()
                &&& report->0@.len() == REPORT_HEADER + old(self).segments() * segment_len(
                    old(self).rows(),
                )
                &&& final(self).bytes() == seq![0u8, 0u8]
                &&& final(self).segments() == 0
            },
            report is None ==> {
                &&& final(self).bytes() == old(self).bytes()
                &&& final(self).segments() == old(self).segments()
            },
    {
        if self.is_ready() {
            Some(self.flush())
        } else {
            None
        }
    }
}

/// A reading that arrived for a row.
pub struct RowReading {
    pub row: nat,
    pub value: u16,
}

/// `bytes` after the readings of `arrivals` were written to its last
/// segment, in their order of arrival.
pub open spec fn with_readings(bytes: Seq<u8>, rows: nat, arrivals: Seq<RowReading>) -> Seq<u8>
    decreases arrivals.len(),
{
    if arrivals.len() == 0 {
        bytes
    } else {
        with_reading(
            with_readings(bytes, rows, arrivals.drop_last()),
            rows,
            arrivals.last().row,
            arrivals.last().value,
        )
    }
}

/// The reading that arrived last for `row`, if any arrived.
pub open spec fn latest_reading(arrivals: Seq<RowReading>, row: nat) -> Option<u16>
    decreases arrivals.len(),
{
    if arrivals.len() == 0 {
        None
    } else if arrivals.last().row == row {
        Some(arrivals.last().value)
    } else {
        latest_reading(arrivals.drop_last(), row)
    }
}

/// A segment that was opened and then received readings, in any order and
/// for any of its rows, is well formed: it adds exactly one segment length
/// to the buffer, leaves what the buffer held before untouched, begins with
/// its strobe and row count, holds for each row that received a reading
/// the reading that arrived last, and holds the sentinel in exactly the
/// rows that received none. No reading may itself be the sentinel value.
pub proof fn lemma_segment_marks_missing_rows(
    before: Seq<u8>,
    strobe: u8,
    rows: nat,
    arrivals: Seq<RowReading>,
)
    requires
        0 < rows <= MAX_REPORT_ROWS,
        forall|i: int|
            0 <= i < arrivals.len() ==> (#[trigger] arrivals[i]).row < rows && arrivals[i].value
                != 0xFFFF,
    ensures
        ({
            let bytes = with_readings(before + empty_segment(strobe, rows), rows, arrivals);
            &&& bytes.len() == before.len() + segment_len(rows)
            &&& bytes.take(before.len() as int) == before
            &&& bytes[before.len() as int] == strobe
            &&& bytes[before.len() as int + 1] == rows as u8
            &&& forall|row: nat|
                row < rows ==> #[trigger] slot_reading(bytes, rows, row) == latest_reading(
                    arrivals,
                    row,
                )
        }),
    decreases arrivals.len(),
{
    let opened = before + empty_segment(strobe, rows);
    let bytes = with_readings(opened, rows, arrivals);
    if arrivals.len() == 0 {
        assert(bytes.take(before.len() as int) =~= before);
        assert forall|row: nat| row < rows implies #[trigger] slot_reading(bytes, rows, row)
            == latest_reading(arrivals, row) by {
            let at = slot_position(bytes, rows, row);
            assert(bytes[at] == SENTINEL);
            assert(bytes[at + 1] == SENTINEL);
        }
    } else {
        let earlier = arrivals.drop_last();
        let mid = with_readings(opened, rows, earlier);
        lemma_segment_marks_missing_rows(before, strobe, rows, earlier);
        let last = arrivals.last();
        assert(last.row < rows && last.value != 0xFFFF);
        let at = slot_position(mid, rows, last.row);
        assert(bytes.take(before.len() as int) =~= mid.take(before.len() as int));
        assert forall|row: nat| row < rows implies #[trigger] slot_reading(bytes, rows, row)
            == latest_reading(arrivals, row) by {
            if row == last.row {
                let low = (last.value % 256) as u8;
                let high = (last.value / 256) as u8;
                assert(bytes[at] == low);
                assert(bytes[at + 1] == high);
                assert(low as nat + 256 * high as nat == last.value);
                assert(!(low == 0xFF && high == 0xFF));
            } else {
                assert(slot_reading(mid, rows, row) == latest_reading(earlier, row));
                let other = slot_position(mid, rows, row);
                assert(bytes[other] == mid[other]);
                assert(bytes[other + 1] == mid[other + 1]);
            }
        }
    }
}

/// Whole segments behind the header: the first byte of the last one lies
/// behind the header.
pub proof fn lemma_last_segment_inside(segments: nat, rows: nat)
    requires
        segments > 0,
    ensures
        REPORT_HEADER + segments * segment_len(rows) >= REPORT_HEADER + segment_len(rows),
{
    assert(segments * segment_len(rows) >= segment_len(rows)) by (nonlinear_arith)
        requires
            segments >= 1,
    ;
}

/// The number of segments in a buffer is below its capacity.
pub proof fn lemma_segment_count_fits(segments: nat, rows: nat)
    requires
        REPORT_HEADER + segments * segment_len(rows) <= REPORT_CAPACITY,
    ensures
        segments <= REPORT_CAPACITY,
{
    assert(segments * segment_len(rows) >= segments) by (nonlinear_arith)
        requires
            segment_len(rows) >= 1,
    ;
}

} // verus!
