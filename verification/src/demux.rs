//! Demultiplexing of tagged raw samples and per-cell accumulation.
//!
//! The acquisition peripheral delivers 16-bit words that hold a 4-bit
//! channel tag and a 12-bit magnitude. A fixed table maps the channel tags
//! of the sense lines to matrix rows; every other tag is discarded.
//! Together with the active strobe a row names one cell of the matrix.
//! Each cell collects its samples until the configured number has arrived;
//! the completed group is then handed on and the cell starts over. Cells
//! are filled independently of each other, so the order in which the
//! samples of different cells arrive does not matter.
use vstd::prelude::*;

verus! {

/// Width to which a 12-bit magnitude is reduced before it is used.
#[derive(Clone, Copy, Debug, PartialEq, Eq, Structural)]
pub enum Resolution {
    /// The full 12 bits.
    Bits12,
    /// The upper 11 bits.
    Bits11,
    /// The upper 10 bits.
    Bits10,
}

impl Resolution {
    /// Number of low bits that are dropped from a magnitude.
    pub open spec fn shift(self) -> nat {
        match self {
            Resolution::Bits12 => 0,
            Resolution::Bits11 => 1,
            Resolution::Bits10 => 2,
        }
    }

    /// The divisor that drops those bits.
    pub open spec fn divisor(self) -> nat {
        match self {
            Resolution::Bits12 => 1,
            Resolution::Bits11 => 2,
            Resolution::Bits10 => 4,
        }
    }
}

/// Channel tag of a raw word: its upper four bits.
pub open spec fn channel_of(raw: u16) -> nat {
    (raw / 4096) as nat
}

/// Magnitude of a raw word: its lower twelve bits, reduced to `resolution`.
pub open spec fn magnitude_of(raw: u16, resolution: Resolution) -> nat {
    ((raw % 4096) as nat) / resolution.divisor()
}

/// The matrix row that a channel tag stands for, if it stands for one.
/// Tags 0 to 3 are rows 0 to 3, tags 8 and 9 are rows 4 and 5.
pub open spec fn row_for_channel(channel: nat) -> Option<nat> {
    if channel <= 3 {
        Some(channel)
    } else if channel == 8 {
        Some(4nat)
    } else if channel == 9 {
        Some(5nat)
    } else {
        None
    }
}

/// A raw sample after it has been taken apart.
#[derive(Clone, Copy, Debug, PartialEq, Eq, Structural)]
pub struct RawSample {
    /// Channel tag, 0 to 15.
    pub channel: u16,
    /// Magnitude at the requested resolution.
    pub magnitude: u16,
}

/// Takes a raw word apart into its channel tag and its magnitude.
pub fn decode(raw: u16, resolution: Resolution) -> (sample: RawSample)
    ensures
        sample.channel == channel_of(raw),
        sample.magnitude == magnitude_of(raw, resolution),
        sample.channel <= 15,
        sample.magnitude <= 4095,
{
    let channel: u16 = (raw & 0xF000) >> 12;
    let masked: u16 = raw & 0x0FFF;
    assert((raw & 0xF000) >> 12 == raw / 4096) by (bit_vector);
    assert(raw & 0x0FFF == raw % 4096) by (bit_vector);
    assert(raw / 4096 <= 15) by (bit_vector);
    let magnitude: u16 = match resolution {
        Resolution::Bits12 => masked,
        Resolution::Bits11 => {
            assert(masked >> 1 == masked / 2) by (bit_vector);
            masked >> 1
        },
        Resolution::Bits10 => {
            assert(masked >> 2 == masked / 4) by (bit_vector);
            masked >> 2
        },
    };
    RawSample { channel, magnitude }
}

/// Looks a channel tag up in the row table.
pub fn row_of_channel(channel: u16) -> (row: Option<usize>)
    ensures
        row is Some <==> row_for_channel(channel as nat) is Some,
        row is Some ==> row->0 == row_for_channel(channel as nat)->0,
{
    if channel <= 3 {
        Some(channel as usize)
    } else if channel == 8 {
        Some(4)
    } else if channel == 9 {
        Some(5)
    } else {
        None
    }
}

/// Dimensions of the matrix and the number of samples that complete a cell.
#[derive(Clone, Copy, Debug, PartialEq, Eq, Structural)]
pub struct MatrixShape {
    /// Number of columns (strobes).
    pub columns: usize,
    /// Number of rows (sense lines).
    pub rows: usize,
    /// Number of samples that make one reading of a cell.
    pub samples_per_cell: usize,
}

impl MatrixShape {
    /// Number of cells of the matrix.
    pub open spec fn cells(self) -> nat {
        (self.rows * self.columns) as nat
    }

    /// A usable shape: no dimension is zero and the cell count fits the machine.
    pub open spec fn wf(self) -> bool {
        &&& self.columns > 0
        &&& self.rows > 0
        &&& self.samples_per_cell > 0
        &&& self.rows * self.columns <= usize::MAX
    }

    /// Index of the cell in `row` under `strobe`: `row * columns + strobe`.
    pub open spec fn cell_index(self, row: nat, strobe: nat) -> nat {
        row * (self.columns as nat) + strobe
    }

    /// The cell that a raw word belongs to while `strobe` is active: none if
    /// its channel tag is unmapped or the cell lies outside the matrix.
    pub open spec fn target(self, raw: u16, strobe: nat) -> Option<nat> {
        match row_for_channel(channel_of(raw)) {
            Some(row) => if self.cell_index(row, strobe) < self.cells() {
                Some(self.cell_index(row, strobe))
            } else {
                None
            },
            None => None,
        }
    }
}

/// A group of samples that completes one reading of a cell.
#[derive(Debug)]
pub struct CompletedReading {
    /// The cell that was read.
    pub cell_index: usize,
    /// Its samples, in the order in which they arrived.
    pub samples: Vec<u16>,
}

/// Mathematical value of a completed reading.
pub struct ReadingModel {
    pub cell: nat,
    pub samples: Seq<u16>,
}

impl View for CompletedReading {
    type V = ReadingModel;

    open spec fn view(&self) -> ReadingModel {
        ReadingModel { cell: self.cell_index as nat, samples: self.samples@ }
    }
}

/// The readings of a vector, as mathematical values.
pub open spec fn readings_of(v: Seq<CompletedReading>) -> Seq<ReadingModel> {
    v.map_values(|r: CompletedReading| r@)
}

/// What the accumulator holds and has emitted: for each cell the samples
/// that wait for completion, and the readings completed so far.
pub struct Accumulation {
    pub pending: Seq<Seq<u16>>,
    pub completed: Seq<ReadingModel>,
}

/// Adds one magnitude to a cell. The cell completes when the sample
/// brings it to `samples_per_cell`; it then emits its samples and is empty.
pub open spec fn accumulate(acc: Accumulation, samples_per_cell: nat, cell: nat, magnitude: u16)
    -> Accumulation {
    let grown = acc.pending[cell as int].push(magnitude);
    if grown.len() >= samples_per_cell {
        Accumulation {
            pending: acc.pending.update(cell as int, Seq::empty()),
            completed: acc.completed.push(ReadingModel { cell, samples: grown }),
        }
    } else {
        Accumulation { pending: acc.pending.update(cell as int, grown), completed: acc.completed }
    }
}

/// Handles one raw word: a word without a target cell changes nothing.
pub open spec fn record_one(
    acc: Accumulation,
    shape: MatrixShape,
    resolution: Resolution,
    strobe: nat,
    raw: u16,
) -> Accumulation {
    match shape.target(raw, strobe) {
        Some(cell) => accumulate(
            acc,
            shape.samples_per_cell as nat,
            cell,
            magnitude_of(raw, resolution) as u16,
        ),
        None => acc,
    }
}

/// Handles the raw words of one strobe, first to last.
pub open spec fn record_all(
    acc: Accumulation,
    shape: MatrixShape,
    resolution: Resolution,
    strobe: nat,
    raws: Seq<u16>,
) -> Accumulation
    decreases raws.len(),
{
    if raws.len() == 0 {
        acc
    } else {
        record_one(
            record_all(acc, shape, resolution, strobe, raws.drop_last()),
            shape,
            resolution,
            strobe,
            raws.last(),
        )
    }
}

/// Per-cell sample store of a matrix.
pub struct SampleAccumulator {
    shape: MatrixShape,
    resolution: Resolution,
    pending: Vec<Vec<u16>>,
}

impl SampleAccumulator {
    /// Dimensions of the matrix.
    pub closed spec fn shape(&self) -> MatrixShape {
        self.shape
    }

    /// Resolution to which magnitudes are reduced.
    pub closed spec fn resolution(&self) -> Resolution {
        self.resolution
    }

    /// For each cell, the samples that wait for completion.
    pub closed spec fn pending(&self) -> Seq<Seq<u16>> {
        Seq::new(self.pending@.len(), |i: int| self.pending@[i]@)
    }

    /// One entry per cell, and no cell holds a complete group.
    pub open spec fn wf(&self) -> bool {
        &&& self.shape().wf()
        &&& self.pending().len() == self.shape().cells()
        &&& forall|c: int|
            0 <= c < self.pending().len() ==> (#[trigger] self.pending()[c]).len()
                < self.shape().samples_per_cell
    }

    /// An accumulator in which every cell is empty.
    pub fn new(shape: MatrixShape, resolution: Resolution) -> (acc: Self)
        requires
            shape.wf(),
        ensures
            acc.wf(),
            acc.shape() == shape,
            acc.resolution() == resolution,
            forall|c: int| 0 <= c < shape.cells() ==> acc.pending()[c] == Seq::<u16>::empty(),
    {
        let cells: usize = shape.rows * shape.columns;
        let mut pending: Vec<Vec<u16>> = Vec::new();
        let mut i: usize = 0;
        while i < cells
            invariant
                i <= cells,
                pending@.len() == i,
                forall|c: int| 0 <= c < i ==> (#[trigger] pending@[c])@ == Seq::<u16>::empty(),
            decreases cells - i,
        {
            pending.push(Vec::new());
            i = i + 1;
        }
        SampleAccumulator { shape, resolution, pending }
    }

    /// Number of rows of the matrix.
    pub fn shape_rows(&self) -> (rows: usize)
        ensures
            rows == self.shape().rows,
    {
        self.shape.rows
    }

    /// Number of samples that wait in `cell`.
    pub fn pending_count(&self, cell: usize) -> (n: usize)
        requires
            self.wf(),
            cell < self.shape().cells(),
        ensures
            n == self.pending()[cell as int].len(),
    {
        self.pending[cell].len()
    }

    /// Adds one magnitude to `cell` and returns the cell's samples if that
    /// completes them.
    pub fn push_sample(&mut self, cell: usize, magnitude: u16) -> (done: Option<CompletedReading>)
        requires
            old(self).wf(),
            cell < old(self).shape().cells(),
        ensures
            final(self).wf(),
            final(self).shape() == old(self).shape(),
            final(self).resolution() == old(self).resolution(),
            ({
                let before = Accumulation { pending: old(self).pending(), completed: Seq::empty() };
                let after = accumulate(
                    before,
                    old(self).shape().samples_per_cell as nat,
                    cell as nat,
                    magnitude,
                );
                &&& final(self).pending() == after.pending
                &&& match done {
                    Some(r) => after.completed == seq![r@],
                    None => after.completed == Seq::<ReadingModel>::empty(),
                }
            }),
    {
        let ghost before = self.pending();
        let inner = &mut self.pending[cell];
        inner.push(magnitude);
        if self.pending[cell].len() >= self.shape.samples_per_cell {
            let mut samples: Vec<u16> = Vec::new();
            core::mem::swap(&mut self.pending[cell], &mut samples);
            proof {
                assert(self.pending() =~= before.update(cell as int, Seq::empty()));
            }
            Some(CompletedReading { cell_index: cell, samples })
        } else {
            proof {
                assert(self.pending() =~= before.update(
                    cell as int,
                    before[cell as int].push(magnitude),
                ));
            }
            None
        }
    }

    /// Takes the raw words of the active strobe apart, adds each mapped
    /// magnitude to its cell and returns the readings that this completes,
    /// in the order of completion. A word whose channel tag is unmapped, or
    /// whose cell lies outside the matrix, is dropped.
    pub fn record(&mut self, strobe: usize, raws: &Vec<u16>) -> (completed: Vec<CompletedReading>)
        requires
            old(self).wf(),
            strobe < old(self).shape().columns,
        ensures
            final(self).wf(),
            final(self).shape() == old(self).shape(),
            final(self).resolution() == old(self).resolution(),
            ({
                let before = Accumulation { pending: old(self).pending(), completed: Seq::empty() };
                let after = record_all(
                    before,
                    old(self).shape(),
                    old(self).resolution(),
                    strobe as nat,
                    raws@,
                );
                &&& final(self).pending() == after.pending
                &&& readings_of(completed@) == after.completed
            }),
    {
        let ghost before = Accumulation { pending: self.pending(), completed: Seq::empty() };
        let ghost shape = self.shape;
        let ghost resolution = self.resolution;
        let mut completed: Vec<CompletedReading> = Vec::new();
        let mut i: usize = 0;
        proof {
            assert(readings_of(completed@) =~= Seq::<ReadingModel>::empty());
        }
        while i < raws.len()
            invariant
                i <= raws.len(),
                self.wf(),
                self.shape() == shape,
                self.resolution() == resolution,
                shape.wf(),
                strobe < shape.columns,
                ({
                    let now = record_all(
                        before,
                        shape,
                        resolution,
                        strobe as nat,
                        raws@.take(i as int),
                    );
                    &&& self.pending() == now.pending
                    &&& readings_of(completed@) == now.completed
                }),
            decreases raws.len() - i,
        {
            let raw = raws[i];
            let ghost prev = record_all(
                before,
                shape,
                resolution,
                strobe as nat,
                raws@.take(i as int),
            );
            let ghost next = record_one(prev, shape, resolution, strobe as nat, raw);
            proof {
                assert(raws@.take(i + 1).drop_last() =~= raws@.take(i as int));
                assert(raws@.take(i + 1).last() == raw);
                assert(record_all(before, shape, resolution, strobe as nat, raws@.take(i + 1))
                    == next);
            }
            let sample = decode(raw, self.resolution);
            match row_of_channel(sample.channel) {
                Some(row) => {
                    proof {
                        lemma_cell_in_matrix(shape, row as nat, strobe as nat);
                    }
                    if row < self.shape.rows {
                        let cell: usize = row * self.shape.columns + strobe;
                        let ghost old_completed = completed@;
                        let ghost fresh = accumulate(
                            Accumulation { pending: prev.pending, completed: Seq::empty() },
                            shape.samples_per_cell as nat,
                            cell as nat,
                            sample.magnitude,
                        );
                        proof {
                            assert(shape.target(raw, strobe as nat) == Some(cell as nat));
                            assert(next.pending == fresh.pending);
                            assert(next.completed =~= prev.completed + fresh.completed);
                        }
                        let done = self.push_sample(cell, sample.magnitude);
                        match done {
                            Some(r) => {
                                completed.push(r);
                                proof {
                                    assert(readings_of(completed@) =~= readings_of(
                                        old_completed,
                                    ).push(r@));
                                }
                            },
                            None => {},
                        }
                    } else {
                        proof {
                            assert(shape.target(raw, strobe as nat) is None);
                        }
                    }
                },
                None => {},
            }
            i = i + 1;
        }
        proof {
            assert(raws@.take(raws@.len() as int) =~= raws@);
        }
        completed
    }
}

/// The magnitudes among `raws` that belong to `cell`, in order of arrival.
pub open spec fn samples_for(
    shape: MatrixShape,
    resolution: Resolution,
    strobe: nat,
    cell: nat,
    raws: Seq<u16>,
) -> Seq<u16>
    decreases raws.len(),
{
    if raws.len() == 0 {
        Seq::empty()
    } else {
        let earlier = samples_for(shape, resolution, strobe, cell, raws.drop_last());
        if shape.target(raws.last(), strobe) == Some(cell) {
            earlier.push(magnitude_of(raws.last(), resolution) as u16)
        } else {
            earlier
        }
    }
}

/// The sample groups among `completed` that are readings of `cell`.
pub open spec fn completed_for(cell: nat, completed: Seq<ReadingModel>) -> Seq<Seq<u16>>
    decreases completed.len(),
{
    if completed.len() == 0 {
        Seq::empty()
    } else {
        let earlier = completed_for(cell, completed.drop_last());
        if completed.last().cell == cell {
            earlier.push(completed.last().samples)
        } else {
            earlier
        }
    }
}

/// Raw words whose channel tags are all unmapped complete no reading and
/// leave the samples of every cell as they were.
pub proof fn lemma_unmapped_samples_change_nothing(
    acc: Accumulation,
    shape: MatrixShape,
    resolution: Resolution,
    strobe: nat,
    raws: Seq<u16>,
)
    requires
        forall|i: int|
            0 <= i < raws.len() ==> row_for_channel(channel_of(#[trigger] raws[i])) is None,
    ensures
        record_all(acc, shape, resolution, strobe, raws) == acc,
    decreases raws.len(),
{
    if raws.len() > 0 {
        lemma_unmapped_samples_change_nothing(acc, shape, resolution, strobe, raws.drop_last());
        assert(row_for_channel(channel_of(raws[raws.len() - 1])) is None);
    }
}

/// A raw word with an unmapped channel tag, wherever it stands among the
/// words of a strobe, is as good as absent.
pub proof fn lemma_unmapped_sample_is_ignored(
    acc: Accumulation,
    shape: MatrixShape,
    resolution: Resolution,
    strobe: nat,
    raws: Seq<u16>,
    at: int,
)
    requires
        0 <= at < raws.len(),
        row_for_channel(channel_of(raws[at])) is None,
    ensures
        record_all(acc, shape, resolution, strobe, raws) == record_all(
            acc,
            shape,
            resolution,
            strobe,
            raws.remove(at),
        ),
    decreases raws.len(),
{
    if at == raws.len() - 1 {
        assert(raws.remove(at) =~= raws.drop_last());
    } else {
        lemma_unmapped_sample_is_ignored(acc, shape, resolution, strobe, raws.drop_last(), at);
        assert(raws.remove(at).drop_last() =~= raws.drop_last().remove(at));
        assert(raws.remove(at).last() == raws.last());
    }
}

/// How one cell moves while the words of a strobe are recorded. As long
/// as the samples that wait in the cell and those that arrive for it stay
/// below the configured count, they all wait and no reading of the cell
/// is completed. When they reach the count, they form one completed
/// reading and the cell is empty.
pub proof fn lemma_cell_progress(
    acc: Accumulation,
    shape: MatrixShape,
    resolution: Resolution,
    strobe: nat,
    cell: nat,
    raws: Seq<u16>,
)
    requires
        acc.pending.len() == shape.cells(),
        cell < shape.cells(),
        acc.pending[cell as int].len() < shape.samples_per_cell,
        acc.pending[cell as int].len() + samples_for(shape, resolution, strobe, cell, raws).len()
            <= shape.samples_per_cell,
    ensures
        ({
            let after = record_all(acc, shape, resolution, strobe, raws);
            let total = acc.pending[cell as int] + samples_for(
                shape,
                resolution,
                strobe,
                cell,
                raws,
            );
            &&& after.pending.len() == shape.cells()
            &&& total.len() < shape.samples_per_cell ==> {
                &&& after.pending[cell as int] == total
                &&& completed_for(cell, after.completed) == completed_for(cell, acc.completed)
            }
            &&& total.len() == shape.samples_per_cell ==> {
                &&& after.pending[cell as int] == Seq::<u16>::empty()
                &&& completed_for(cell, after.completed) == completed_for(
                    cell,
                    acc.completed,
                ).push(total)
            }
        }),
    decreases raws.len(),
{
    let total = acc.pending[cell as int] + samples_for(shape, resolution, strobe, cell, raws);
    if raws.len() == 0 {
        assert(total =~= acc.pending[cell as int]);
    } else {
        let front = raws.drop_last();
        let last = raws.last();
        let mid = record_all(acc, shape, resolution, strobe, front);
        let earlier = samples_for(shape, resolution, strobe, cell, front);
        lemma_cell_progress(acc, shape, resolution, strobe, cell, front);
        let after = record_one(mid, shape, resolution, strobe, last);
        match shape.target(last, strobe) {
            Some(c) => {
                let m = magnitude_of(last, resolution) as u16;
                let grown = mid.pending[c as int].push(m);
                if c == cell {
                    assert(total =~= (acc.pending[cell as int] + earlier).push(m));
                    assert(grown == total);
                    if grown.len() >= shape.samples_per_cell {
                        assert(after.completed.drop_last() =~= mid.completed);
                    }
                } else {
                    if grown.len() >= shape.samples_per_cell {
                        assert(after.completed.drop_last() =~= mid.completed);
                    }
                }
            },
            None => {},
        }
    }
}

/// A cell that is empty and then receives exactly the configured number
/// of samples, in any interleaving with the samples of other cells and
/// with unmapped words, completes exactly one reading, made of those
/// samples in their order of arrival, and is empty again.
pub proof fn lemma_cell_completes_once(
    acc: Accumulation,
    shape: MatrixShape,
    resolution: Resolution,
    strobe: nat,
    cell: nat,
    raws: Seq<u16>,
)
    requires
        acc.pending.len() == shape.cells(),
        cell < shape.cells(),
        shape.samples_per_cell > 0,
        acc.pending[cell as int].len() == 0,
        samples_for(shape, resolution, strobe, cell, raws).len() == shape.samples_per_cell,
    ensures
        ({
            let after = record_all(acc, shape, resolution, strobe, raws);
            &&& after.pending[cell as int] == Seq::<u16>::empty()
            &&& completed_for(cell, after.completed) == completed_for(cell, acc.completed).push(
                samples_for(shape, resolution, strobe, cell, raws),
            )
        }),
{
    lemma_cell_progress(acc, shape, resolution, strobe, cell, raws);
    assert(acc.pending[cell as int] + samples_for(shape, resolution, strobe, cell, raws)
        =~= samples_for(shape, resolution, strobe, cell, raws));
}

/// With the strobe inside the matrix, a cell index lies inside the matrix
/// exactly when its row does.
pub proof fn lemma_cell_in_matrix(shape: MatrixShape, row: nat, strobe: nat)
    requires
        shape.wf(),
        strobe < shape.columns,
    ensures
        shape.cell_index(row, strobe) < shape.cells() <==> row < shape.rows,
{
    let c = shape.columns as int;
    let r = shape.rows as int;
    if row < shape.rows {
        assert(row * c + c <= r * c) by (nonlinear_arith)
            requires
                row + 1 <= r,
                c > 0,
        ;
    } else {
        assert(row * c >= r * c) by (nonlinear_arith)
            requires
                row >= r,
                c > 0,
        ;
    }
}

} // verus!
