//! The file-I/O benchmark as a state machine.
//!
//! A benchmark runs four phases of `n_operations` timed iterations each:
//! sequential write, sequential read, random read and write-then-read.
//! The machine says which file operations each iteration performs (their
//! offsets), records the latency of each iteration, and turns each
//! finished phase into its `FileMetrics`. The caller performs the
//! operations and measures the time.

use vstd::prelude::*;
use crate::PACKET_SIZE;
use crate::metrics::{
    FileMetrics, SummaryError, file_metrics_of, spec_summary_error, summary_error, summarizable,
};
use crate::stats::mean_divisor;

verus! {

/// The runtime whose file API a benchmark drives. The three differ in how
/// they address the file and in how they choose random offsets.
#[derive(Clone, Copy, Debug, PartialEq, Eq, Structural)]
pub enum Runtime {
    /// Positional reads and writes; random offsets aligned to packets, and
    /// offset 0 when there is a single operation.
    Compio,
    /// Positional reads and writes; random offsets not aligned.
    Monoio,
    /// Reads and writes at the file cursor, placed by seeks; random offsets
    /// aligned.
    Tokio,
}

/// A phase of the file benchmark.
#[derive(Clone, Copy, Debug, PartialEq, Eq, Structural)]
pub enum Phase {
    SequentialWrite,
    SequentialRead,
    RandomRead,
    WriteThenRead,
    Finished,
}

/// One file operation. Writes write the whole data buffer and reads fill
/// the whole read buffer, each `PACKET_SIZE` bytes long.
#[derive(Clone, Copy, Debug, PartialEq, Eq, Structural)]
pub enum FileOp {
    /// Open (create if missing) the benchmark file for reading and writing.
    Open,
    /// Write the buffer at the given offset.
    WriteAt(u64),
    /// Read into the buffer from the given offset.
    ReadAt(u64),
    /// Write the buffer at the file cursor.
    Write,
    /// Read into the buffer from the file cursor.
    Read,
    /// Move the file cursor to the given offset.
    Seek(u64),
    /// Flush the file to the device.
    SyncAll,
}

/// The phase that follows `phase`.
pub open spec fn next_phase(phase: Phase) -> Phase {
    match phase {
        Phase::SequentialWrite => Phase::SequentialRead,
        Phase::SequentialRead => Phase::RandomRead,
        Phase::RandomRead => Phase::WriteThenRead,
        Phase::WriteThenRead => Phase::Finished,
        Phase::Finished => Phase::Finished,
    }
}

/// How many phases come before `phase`.
pub open spec fn phase_number(phase: Phase) -> nat {
    match phase {
        Phase::SequentialWrite => 0,
        Phase::SequentialRead => 1,
        Phase::RandomRead => 2,
        Phase::WriteThenRead => 3,
        Phase::Finished => 4,
    }
}

/// Whether the running position advances by the bytes each iteration
/// transferred (it does in the sequential phases, and for Tokio also in
/// write-then-read).
pub open spec fn advances_position(runtime: Runtime, phase: Phase) -> bool {
    match phase {
        Phase::SequentialWrite | Phase::SequentialRead => true,
        Phase::WriteThenRead => runtime == Runtime::Tokio,
        _ => false,
    }
}

/// The offset of a random read in a file of `n_operations` packets, drawn
/// from the random number `random`: `random` modulo the offset of the last
/// packet, aligned down to a packet boundary for Compio and Tokio; Compio
/// reads at 0 when there is a single packet.
pub open spec fn random_read_offset(runtime: Runtime, n_operations: int, random: int) -> int {
    let max_position = (n_operations - 1) * PACKET_SIZE;
    match runtime {
        Runtime::Compio => {
            let position = if max_position > 0 {
                random % max_position
            } else {
                0
            };
            position / (PACKET_SIZE as int) * PACKET_SIZE
        },
        Runtime::Monoio => random % max_position,
        Runtime::Tokio => random % max_position / (PACKET_SIZE as int) * PACKET_SIZE,
    }
}

/// A random read can be planned: Monoio and Tokio take the offset modulo
/// the offset of the last packet, which is zero for a single packet.
pub open spec fn random_read_possible(runtime: Runtime, n_operations: int) -> bool {
    runtime == Runtime::Compio || n_operations >= 2
}

/// Whether the next iteration of `phase` draws a random number: random
/// reads do, except Compio's with a single operation, which read at 0.
pub open spec fn draws_random(runtime: Runtime, phase: Phase, n_operations: int) -> bool {
    phase == Phase::RandomRead && (runtime != Runtime::Compio || n_operations >= 2)
}

/// Whether `op` reads or writes data.
pub open spec fn is_data_op(op: FileOp) -> bool {
    match op {
        FileOp::WriteAt(_) | FileOp::ReadAt(_) | FileOp::Write | FileOp::Read => true,
        _ => false,
    }
}

/// The bytes moved by the first data operation of `ops`, `moved[k]` being
/// what `ops[k]` moved; 0 when there is none.
pub open spec fn transferred_of(ops: Seq<FileOp>, moved: Seq<u64>) -> u64
    decreases ops.len(),
{
    if ops.len() == 0 || moved.len() == 0 {
        0
    } else if is_data_op(ops[0]) {
        moved[0]
    } else {
        transferred_of(ops.drop_first(), moved.drop_first())
    }
}

/// The file cursor after `op`, from `cursor`: a seek sets it, a read or a
/// write at the cursor moves it past the packet, an open of the fresh file
/// puts it at 0, and the other operations leave it.
pub open spec fn cursor_after_op(op: FileOp, cursor: int) -> int {
    match op {
        FileOp::Seek(offset) => offset as int,
        FileOp::Write | FileOp::Read => cursor + PACKET_SIZE,
        FileOp::Open => 0,
        _ => cursor,
    }
}

/// The offset at which a data operation reads or writes its packet, the
/// cursor standing at `cursor`.
pub open spec fn data_offset(op: FileOp, cursor: int) -> int {
    match op {
        FileOp::WriteAt(offset) | FileOp::ReadAt(offset) => offset as int,
        _ => cursor,
    }
}

/// The offsets of the data operations of `ops`, in order, the cursor
/// starting at `cursor`.
pub open spec fn data_offsets(ops: Seq<FileOp>, cursor: int) -> Seq<int>
    decreases ops.len(),
{
    if ops.len() == 0 {
        seq![]
    } else {
        let rest = data_offsets(ops.drop_first(), cursor_after_op(ops[0], cursor));
        if is_data_op(ops[0]) {
            seq![data_offset(ops[0], cursor)] + rest
        } else {
            rest
        }
    }
}

/// The cursor after all of `ops`, from `cursor`.
pub open spec fn cursor_after(ops: Seq<FileOp>, cursor: int) -> int
    decreases ops.len(),
{
    if ops.len() == 0 {
        cursor
    } else {
        cursor_after(ops.drop_first(), cursor_after_op(ops[0], cursor))
    }
}

/// The sequential phases are sequential: when every earlier iteration moved
/// a whole packet, so that the running position is `k * PACKET_SIZE`,
/// iteration `k` reads or writes the packet at `k * PACKET_SIZE`, wherever
/// the cursor stood, and leaves the cursor (used by Tokio) after it.
pub proof fn lemma_sequential_offsets(
    runtime: Runtime,
    phase: Phase,
    n_operations: int,
    k: int,
    random: int,
    cursor: int,
)
    requires
        phase == Phase::SequentialWrite || phase == Phase::SequentialRead,
        0 <= k,
        k * PACKET_SIZE <= u64::MAX,
    ensures
        ({
            let ops = iteration_ops(
                runtime,
                phase,
                n_operations,
                k,
                (k * PACKET_SIZE) as u64,
                random,
            );
            &&& data_offsets(ops, cursor) == seq![k * PACKET_SIZE]
            &&& runtime == Runtime::Tokio ==> cursor_after(ops, cursor) == (k + 1) * PACKET_SIZE
        }),
{
    let ops = iteration_ops(runtime, phase, n_operations, k, (k * PACKET_SIZE) as u64, random);
    reveal_with_fuel(data_offsets, 3);
    reveal_with_fuel(cursor_after, 3);
    if runtime == Runtime::Tokio {
        assert(ops.drop_first().drop_first() =~= Seq::<FileOp>::empty());
    } else {
        assert(ops.drop_first() =~= Seq::<FileOp>::empty());
    }
    assert(data_offsets(ops, cursor) =~= seq![k * PACKET_SIZE]);
}

/// Write-then-read reads back what it wrote: iteration `k` writes and then
/// reads the packet at `k * PACKET_SIZE`. For Tokio, whose cursor the phase
/// starts at 0 and each iteration leaves after its packet, this holds when
/// the cursor and the running position stand at `k * PACKET_SIZE`.
pub proof fn lemma_write_then_read_offsets(
    runtime: Runtime,
    n_operations: int,
    k: int,
    random: int,
)
    requires
        0 <= k,
        k * PACKET_SIZE <= u64::MAX,
    ensures
        ({
            let ops = iteration_ops(
                runtime,
                Phase::WriteThenRead,
                n_operations,
                k,
                (k * PACKET_SIZE) as u64,
                random,
            );
            &&& data_offsets(ops, k * PACKET_SIZE) == seq![k * PACKET_SIZE, k * PACKET_SIZE]
            &&& runtime == Runtime::Tokio ==> cursor_after(ops, k * PACKET_SIZE) == (k + 1)
                * PACKET_SIZE
        }),
{
    let c = k * PACKET_SIZE;
    let ops = iteration_ops(runtime, Phase::WriteThenRead, n_operations, k, c as u64, random);
    reveal_with_fuel(data_offsets, 4);
    reveal_with_fuel(cursor_after, 4);
    if runtime == Runtime::Tokio {
        assert(ops.drop_first().drop_first().drop_first() =~= Seq::<FileOp>::empty());
    } else {
        assert(ops.drop_first().drop_first() =~= Seq::<FileOp>::empty());
    }
    assert(data_offsets(ops, c) =~= seq![c, c]);
}

/// The operations done once before the first phase, outside its timing.
pub open spec fn setup_ops_of(runtime: Runtime) -> Seq<FileOp> {
    match runtime {
        Runtime::Tokio => seq![],
        _ => seq![FileOp::Open],
    }
}

/// The operations that open a phase, inside its timing.
pub open spec fn prologue_ops_of(runtime: Runtime, phase: Phase) -> Seq<FileOp> {
    match (runtime, phase) {
        (Runtime::Tokio, Phase::SequentialWrite) => seq![FileOp::Open],
        (Runtime::Tokio, Phase::SequentialRead) => seq![FileOp::Seek(0)],
        (Runtime::Tokio, Phase::WriteThenRead) => seq![FileOp::Seek(0)],
        _ => seq![],
    }
}

/// The operations that close a phase, inside its timing.
pub open spec fn epilogue_ops_of(runtime: Runtime, phase: Phase) -> Seq<FileOp> {
    match (runtime, phase) {
        (Runtime::Tokio, Phase::SequentialWrite) => seq![FileOp::SyncAll],
        _ => seq![],
    }
}

/// Whether `op` addresses the file by position (or opens it): the only
/// operations of the positional runtimes, Compio and Monoio.
pub open spec fn is_positional_op(op: FileOp) -> bool {
    match op {
        FileOp::Open | FileOp::WriteAt(_) | FileOp::ReadAt(_) => true,
        _ => false,
    }
}

/// Every operation of `ops` is positional.
pub open spec fn all_positional(ops: Seq<FileOp>) -> bool {
    forall|k: int| 0 <= k < ops.len() ==> is_positional_op(#[trigger] ops[k])
}

/// No operation of `ops` reads or writes at a given offset.
pub open spec fn none_at_offset(ops: Seq<FileOp>) -> bool {
    forall|k: int|
        0 <= k < ops.len() ==> !(#[trigger] ops[k] is WriteAt) && !(ops[k] is ReadAt)
}

/// No operation of `ops` reads or writes data.
pub open spec fn no_data_op(ops: Seq<FileOp>) -> bool {
    forall|k: int| 0 <= k < ops.len() ==> !is_data_op(#[trigger] ops[k])
}

/// The file is opened before any data is read or written, on every
/// runtime: the operations before the first iteration (the setup and the
/// opening of the sequential-write phase) hold an `Open` and no read or
/// write. The positional runtimes open it once, in the setup.
pub proof fn lemma_file_opened_before_data(runtime: Runtime)
    ensures
        (setup_ops_of(runtime) + prologue_ops_of(runtime, Phase::SequentialWrite)).contains(
            FileOp::Open,
        ),
        no_data_op(setup_ops_of(runtime) + prologue_ops_of(runtime, Phase::SequentialWrite)),
        runtime != Runtime::Tokio ==> setup_ops_of(runtime) == seq![FileOp::Open],
{
    let framing = setup_ops_of(runtime) + prologue_ops_of(runtime, Phase::SequentialWrite);
    assert(framing.len() == 1);
    assert(framing[0] == FileOp::Open);
}

/// The file is opened only once: no phase other than the first opens it,
/// and no iteration or phase end does.
pub proof fn lemma_file_opened_once(
    runtime: Runtime,
    phase: Phase,
    n_operations: int,
    iteration: int,
    position: u64,
    random: int,
)
    ensures
        phase != Phase::SequentialWrite ==> !prologue_ops_of(runtime, phase).contains(
            FileOp::Open,
        ),
        !epilogue_ops_of(runtime, phase).contains(FileOp::Open),
        !iteration_ops(runtime, phase, n_operations, iteration, position, random).contains(
            FileOp::Open,
        ),
{
    let ops = iteration_ops(runtime, phase, n_operations, iteration, position, random);
    assert(forall|k: int| 0 <= k < ops.len() ==> ops[k] != FileOp::Open);
    let pro = prologue_ops_of(runtime, phase);
    assert(phase != Phase::SequentialWrite ==> forall|k: int|
        0 <= k < pro.len() ==> pro[k] != FileOp::Open);
    let epi = epilogue_ops_of(runtime, phase);
    assert(forall|k: int| 0 <= k < epi.len() ==> epi[k] != FileOp::Open);
}

/// Only Tokio's sequential write phase ends with a flush, and nothing else
/// in any plan flushes the file.
pub proof fn lemma_only_tokio_writes_flush(
    runtime: Runtime,
    phase: Phase,
    n_operations: int,
    iteration: int,
    position: u64,
    random: int,
)
    ensures
        epilogue_ops_of(runtime, phase).contains(FileOp::SyncAll) <==> (runtime == Runtime::Tokio
            && phase == Phase::SequentialWrite),
        !setup_ops_of(runtime).contains(FileOp::SyncAll),
        !prologue_ops_of(runtime, phase).contains(FileOp::SyncAll),
        !iteration_ops(runtime, phase, n_operations, iteration, position, random).contains(
            FileOp::SyncAll,
        ),
{
    let ops = iteration_ops(runtime, phase, n_operations, iteration, position, random);
    assert(forall|k: int| 0 <= k < ops.len() ==> ops[k] != FileOp::SyncAll);
    let pro = prologue_ops_of(runtime, phase);
    assert(forall|k: int| 0 <= k < pro.len() ==> pro[k] != FileOp::SyncAll);
    let set = setup_ops_of(runtime);
    assert(forall|k: int| 0 <= k < set.len() ==> set[k] != FileOp::SyncAll);
    let epi = epilogue_ops_of(runtime, phase);
    if runtime == Runtime::Tokio && phase == Phase::SequentialWrite {
        assert(epi[0] == FileOp::SyncAll);
    } else {
        assert(epi.len() == 0);
    }
}

/// Each runtime addresses the file its own way: every operation Compio and
/// Monoio perform (setup, phase openings, iterations, phase ends) is an
/// open or a positional read or write; Tokio never reads or writes at a
/// given offset.
pub proof fn lemma_addressing_by_runtime(
    runtime: Runtime,
    phase: Phase,
    n_operations: int,
    iteration: int,
    position: u64,
    random: int,
)
    ensures
        runtime != Runtime::Tokio ==> {
            &&& all_positional(setup_ops_of(runtime))
            &&& all_positional(prologue_ops_of(runtime, phase))
            &&& all_positional(
                iteration_ops(runtime, phase, n_operations, iteration, position, random),
            )
            &&& all_positional(epilogue_ops_of(runtime, phase))
        },
        runtime == Runtime::Tokio ==> {
            &&& none_at_offset(setup_ops_of(runtime))
            &&& none_at_offset(prologue_ops_of(runtime, phase))
            &&& none_at_offset(
                iteration_ops(runtime, phase, n_operations, iteration, position, random),
            )
            &&& none_at_offset(epilogue_ops_of(runtime, phase))
        },
{
}

/// The operations of iteration `iteration` of `phase`, with the running
/// position `position` and the random number `random` (used by random
/// reads only).
pub open spec fn iteration_ops(
    runtime: Runtime,
    phase: Phase,
    n_operations: int,
    iteration: int,
    position: u64,
    random: int,
) -> Seq<FileOp> {
    let tokio = runtime == Runtime::Tokio;
    match phase {
        Phase::SequentialWrite => if tokio {
            seq![FileOp::Seek(position), FileOp::Write]
        } else {
            seq![FileOp::WriteAt(position)]
        },
        Phase::SequentialRead => if tokio {
            seq![FileOp::Seek(position), FileOp::Read]
        } else {
            seq![FileOp::ReadAt(position)]
        },
        Phase::RandomRead => {
            let offset = random_read_offset(runtime, n_operations, random) as u64;
            if tokio {
                seq![FileOp::Seek(offset), FileOp::Read]
            } else {
                seq![FileOp::ReadAt(offset)]
            }
        },
        Phase::WriteThenRead => if tokio {
            seq![FileOp::Write, FileOp::Seek(position), FileOp::Read]
        } else {
            let offset = (iteration * PACKET_SIZE) as u64;
            seq![FileOp::WriteAt(offset), FileOp::ReadAt(offset)]
        },
        Phase::Finished => seq![],
    }
}

/// A phase of `n_operations` operations can be summarised: the count is
/// positive, not a multiple of 2^32, and `n_operations * 999` fits a
/// `usize`. Once the first phase is summarised this holds for the rest.
pub open spec fn valid_operation_count(n_operations: int) -> bool {
    &&& n_operations > 0
    &&& mean_divisor(n_operations as nat) != 0
    &&& n_operations * 999 <= usize::MAX
}

/// The abstract state of a file benchmark.
pub struct FileBenchView {
    pub runtime: Runtime,
    pub n_operations: nat,
    pub phase: Phase,
    /// Iterations done in the current phase.
    pub iteration: nat,
    /// Running position of the current phase.
    pub position: u64,
    /// Latencies recorded in the current phase.
    pub latencies: Seq<u64>,
    /// Metrics of the finished phases, in order.
    pub results: Seq<FileMetrics>,
}

/// A file benchmark in progress.
pub struct FileBench {
    runtime: Runtime,
    n_operations: usize,
    phase: Phase,
    iteration: usize,
    position: u64,
    latencies: Vec<u64>,
    results: Vec<FileMetrics>,
}

impl View for FileBench {
    type V = FileBenchView;

    closed spec fn view(&self) -> FileBenchView {
        FileBenchView {
            runtime: self.runtime,
            n_operations: self.n_operations as nat,
            phase: self.phase,
            iteration: self.iteration as nat,
            position: self.position,
            latencies: self.latencies@,
            results: self.results@,
        }
    }
}

impl FileBench {
    /// The state is consistent: the iteration count matches the recorded
    /// latencies, one metrics entry was kept per finished phase, each
    /// counting `n_operations` operations, and once a phase was summarised
    /// the operation count is a valid one.
    pub closed spec fn inv(&self) -> bool {
        &&& phase_number(self.phase) >= 1 ==> valid_operation_count(self.n_operations as int)
        &&& self.iteration <= self.n_operations
        &&& self.latencies@.len() == self.iteration
        &&& self.phase == Phase::Finished ==> self.iteration == 0
        &&& self.results@.len() == phase_number(self.phase)
        &&& forall|k: int|
            0 <= k < self.results@.len() ==> #[trigger] self.results@[k].total_operations
                == self.n_operations
    }

    /// Starts a benchmark of `n_operations` operations per phase, in the
    /// sequential-write phase.
    pub fn new(runtime: Runtime, n_operations: usize) -> (bench: Self)
        ensures
            bench.inv(),
            bench@.runtime == runtime,
            bench@.n_operations == n_operations,
            bench@.phase == Phase::SequentialWrite,
            bench@.iteration == 0,
            bench@.position == 0,
            bench@.latencies == Seq::<u64>::empty(),
            bench@.results == Seq::<FileMetrics>::empty(),
    {
        FileBench {
            runtime,
            n_operations,
            phase: Phase::SequentialWrite,
            iteration: 0,
            position: 0,
            latencies: Vec::new(),
            results: Vec::new(),
        }
    }

    /// The current phase.
    pub fn phase(&self) -> (phase: Phase)
        ensures
            phase == self@.phase,
    {
        self.phase
    }

    /// Whether the current phase still has iterations to run.
    pub fn has_next_iteration(&self) -> (more: bool)
        requires
            self.inv(),
        ensures
            more == (self@.phase != Phase::Finished && self@.iteration < self@.n_operations),
    {
        self.phase != Phase::Finished && self.iteration < self.n_operations
    }

    /// The operations done once before the first phase.
    pub fn setup_ops(&self) -> (ops: Vec<FileOp>)
        ensures
            ops@ == setup_ops_of(self@.runtime),
    {
        let mut ops: Vec<FileOp> = Vec::new();
        match self.runtime {
            Runtime::Tokio => {},
            _ => ops.push(FileOp::Open),
        }
        ops
    }

    /// The operations that open the current phase.
    pub fn prologue_ops(&self) -> (ops: Vec<FileOp>)
        ensures
            ops@ == prologue_ops_of(self@.runtime, self@.phase),
    {
        let mut ops: Vec<FileOp> = Vec::new();
        match (self.runtime, self.phase) {
            (Runtime::Tokio, Phase::SequentialWrite) => ops.push(FileOp::Open),
            (Runtime::Tokio, Phase::SequentialRead) => ops.push(FileOp::Seek(0)),
            (Runtime::Tokio, Phase::WriteThenRead) => ops.push(FileOp::Seek(0)),
            _ => {},
        }
        assert(ops@ =~= prologue_ops_of(self@.runtime, self@.phase));
        ops
    }

    /// The operations that close the current phase.
    pub fn epilogue_ops(&self) -> (ops: Vec<FileOp>)
        ensures
            ops@ == epilogue_ops_of(self@.runtime, self@.phase),
    {
        let mut ops: Vec<FileOp> = Vec::new();
        match (self.runtime, self.phase) {
            (Runtime::Tokio, Phase::SequentialWrite) => ops.push(FileOp::SyncAll),
            _ => {},
        }
        assert(ops@ =~= epilogue_ops_of(self@.runtime, self@.phase));
        ops
    }

    /// The offset of a random read drawn from `random`, as the runtime
    /// computes it. A whole packet read there lies inside the
    /// `n_operations` packets the sequential write phase wrote; Compio and
    /// Tokio read a whole packet among the first `n_operations - 1`.
    pub fn random_read_position(runtime: Runtime, n_operations: usize, random: usize) -> (offset: u64)
        requires
            valid_operation_count(n_operations as int),
            random_read_possible(runtime, n_operations as int),
        ensures
            offset == random_read_offset(runtime, n_operations as int, random as int),
            offset + PACKET_SIZE <= n_operations * PACKET_SIZE,
            runtime != Runtime::Monoio ==> (offset as int) % (PACKET_SIZE as int) == 0,
            runtime != Runtime::Monoio && n_operations >= 2 ==> offset <= (n_operations - 2)
                * PACKET_SIZE,
    {
        let ghost n = n_operations as int;
        assert((n - 1) * 512 <= n * 999) by (nonlinear_arith)
            requires
                n > 0,
        ;
        assert((n - 1) * 512 + 512 == n * 512) by (nonlinear_arith);
        let max_position = (n_operations - 1) * PACKET_SIZE;
        let position: usize = match runtime {
            Runtime::Compio => {
                let position = if max_position > 0 {
                    random % max_position
                } else {
                    0
                };
                position / PACKET_SIZE * PACKET_SIZE
            },
            Runtime::Monoio => random % max_position,
            Runtime::Tokio => random % max_position / PACKET_SIZE * PACKET_SIZE,
        };
        proof {
            let r = random as int;
            let m = max_position as int;
            if m > 0 {
                assert(0 <= r % m < m) by (nonlinear_arith)
                    requires
                        m > 0,
                        r >= 0,
                ;
            }
            let p = if runtime == Runtime::Monoio || m > 0 {
                r % m
            } else {
                0
            };
            assert(p / 512 * 512 <= p) by (nonlinear_arith)
                requires
                    p >= 0,
            ;
            assert((p / 512 * 512) % 512 == 0) by (nonlinear_arith);
            if n >= 2 {
                assert(m == (n - 1) * 512);
                assert(p / 512 * 512 <= (n - 2) * 512) by (nonlinear_arith)
                    requires
                        0 <= p < (n - 1) * 512,
                ;
            }
        }
        position as u64
    }

    /// The operations of the next iteration of the current phase, with the
    /// random number `random` for a random read.
    pub fn iteration_ops_with(&self, random: usize) -> (ops: Vec<FileOp>)
        requires
            self.inv(),
            self@.phase != Phase::Finished,
            self@.iteration < self@.n_operations,
            self@.phase == Phase::RandomRead ==> random_read_possible(
                self@.runtime,
                self@.n_operations as int,
            ),
        ensures
            ops@ == iteration_ops(
                self@.runtime,
                self@.phase,
                self@.n_operations as int,
                self@.iteration as int,
                self@.position,
                random as int,
            ),
    {
        let mut ops: Vec<FileOp> = Vec::new();
        let tokio = self.runtime == Runtime::Tokio;
        match self.phase {
            Phase::SequentialWrite => {
                if tokio {
                    ops.push(FileOp::Seek(self.position));
                    ops.push(FileOp::Write);
                } else {
                    ops.push(FileOp::WriteAt(self.position));
                }
            },
            Phase::SequentialRead => {
                if tokio {
                    ops.push(FileOp::Seek(self.position));
                    ops.push(FileOp::Read);
                } else {
                    ops.push(FileOp::ReadAt(self.position));
                }
            },
            Phase::RandomRead => {
                let offset = Self::random_read_position(self.runtime, self.n_operations, random);
                if tokio {
                    ops.push(FileOp::Seek(offset));
                    ops.push(FileOp::Read);
                } else {
                    ops.push(FileOp::ReadAt(offset));
                }
            },
            Phase::WriteThenRead => {
                if tokio {
                    ops.push(FileOp::Write);
                    ops.push(FileOp::Seek(self.position));
                    ops.push(FileOp::Read);
                } else {
                    let ghost i = self.iteration as int;
                    let ghost n = self.n_operations as int;
                    assert(i * 512 <= n * 999) by (nonlinear_arith)
                        requires
                            0 <= i < n,
                    ;
                    let offset = (self.iteration * PACKET_SIZE) as u64;
                    ops.push(FileOp::WriteAt(offset));
                    ops.push(FileOp::ReadAt(offset));
                }
            },
            Phase::Finished => {},
        }
        assert(ops@ =~= iteration_ops(
            self@.runtime,
            self@.phase,
            self@.n_operations as int,
            self@.iteration as int,
            self@.position,
            random as int,
        ));
        ops
    }

    /// The operations of the next iteration of the current phase. A random
    /// read whose offset depends on a random number (`draws_random`) draws
    /// it from the thread's random generator; no other iteration draws.
    pub fn next_iteration_ops(&self) -> (ops: Vec<FileOp>)
        requires
            self.inv(),
            self@.phase != Phase::Finished,
            self@.iteration < self@.n_operations,
            self@.phase == Phase::RandomRead ==> random_read_possible(
                self@.runtime,
                self@.n_operations as int,
            ),
        ensures
            draws_random(self@.runtime, self@.phase, self@.n_operations as int) ==> exists|
                random: usize,
            |
                ops@ == iteration_ops(
                    self@.runtime,
                    self@.phase,
                    self@.n_operations as int,
                    self@.iteration as int,
                    self@.position,
                    random as int,
                ),
            !draws_random(self@.runtime, self@.phase, self@.n_operations as int) ==> ops@
                == iteration_ops(
                self@.runtime,
                self@.phase,
                self@.n_operations as int,
                self@.iteration as int,
                self@.position,
                0,
            ),
    {
        let draws = self.phase == Phase::RandomRead && (self.runtime != Runtime::Compio
            || self.n_operations >= 2);
        let random = if draws {
            random_usize()
        } else {
            0
        };
        self.iteration_ops_with(random)
    }

    /// Whether an iteration that transferred `transferred` bytes can be
    /// recorded: where the phase advances the running position, it must not
    /// overflow.
    pub fn can_record(&self, transferred: u64) -> (ok: bool)
        requires
            self.inv(),
        ensures
            ok == (advances_position(self@.runtime, self@.phase) ==> self@.position + transferred
                <= u64::MAX),
    {
        match self.phase {
            Phase::SequentialWrite | Phase::SequentialRead => self.position <= u64::MAX - transferred,
            Phase::WriteThenRead => self.runtime != Runtime::Tokio || self.position <= u64::MAX
                - transferred,
            _ => true,
        }
    }

    /// The bytes an iteration transferred: what the first data operation
    /// among `ops` (a read or a write) moved, `moved[k]` being what `ops[k]`
    /// moved; 0 when there is none.
    pub fn transferred_bytes(ops: &Vec<FileOp>, moved: &Vec<u64>) -> (bytes: u64)
        requires
            ops@.len() == moved@.len(),
        ensures
            bytes == transferred_of(ops@, moved@),
    {
        let mut k: usize = ops.len();
        let mut bytes: u64 = 0;
        while k > 0
            invariant
                k <= ops@.len() == moved@.len(),
                bytes == transferred_of(ops@.skip(k as int), moved@.skip(k as int)),
            decreases k,
        {
            k = k - 1;
            proof {
                assert(ops@.skip(k as int).drop_first() =~= ops@.skip(k + 1));
                assert(moved@.skip(k as int).drop_first() =~= moved@.skip(k + 1));
            }
            let data_op = match ops[k] {
                FileOp::WriteAt(_) | FileOp::ReadAt(_) | FileOp::Write | FileOp::Read => true,
                _ => false,
            };
            if data_op {
                bytes = moved[k];
            }
        }
        assert(ops@.skip(0) =~= ops@);
        assert(moved@.skip(0) =~= moved@);
        bytes
    }

    /// Records an iteration of the current phase that took `elapsed`
    /// nanoseconds and transferred `transferred` bytes.
    pub fn record_iteration(&mut self, elapsed: u64, transferred: u64)
        requires
            old(self).inv(),
            old(self)@.phase != Phase::Finished,
            old(self)@.iteration < old(self)@.n_operations,
            advances_position(old(self)@.runtime, old(self)@.phase) ==> old(self)@.position
                + transferred <= u64::MAX,
        ensures
            final(self).inv(),
            final(self)@.latencies == old(self)@.latencies.push(elapsed),
            final(self)@.iteration == old(self)@.iteration + 1,
            final(self)@.position == if advances_position(old(self)@.runtime, old(self)@.phase) {
                (old(self)@.position + transferred) as u64
            } else {
                old(self)@.position
            },
            final(self)@.runtime == old(self)@.runtime,
            final(self)@.n_operations == old(self)@.n_operations,
            final(self)@.phase == old(self)@.phase,
            final(self)@.results == old(self)@.results,
    {
        let ghost before = self.latencies@;
        self.latencies.push(elapsed);
        assert(self.latencies@.drop_last() =~= before);
        self.iteration = self.iteration + 1;
        let advances = match self.phase {
            Phase::SequentialWrite | Phase::SequentialRead => true,
            Phase::WriteThenRead => self.runtime == Runtime::Tokio,
            _ => false,
        };
        if advances {
            self.position = self.position + transferred;
        }
    }

    /// Why the latencies recorded in the current phase cannot be
    /// summarised, or `None` when they can (`summary_error`).
    pub fn phase_summary_error(&self) -> (e: Option<SummaryError>)
        ensures
            e == spec_summary_error(self@.latencies),
            e is None <==> summarizable(self@.latencies),
    {
        summary_error(&self.latencies)
    }

    /// Closes the current phase, which took `phase_time` nanoseconds: its
    /// metrics are kept and the next phase starts from position 0.
    pub fn finish_phase(&mut self, phase_time: u64)
        requires
            old(self).inv(),
            old(self)@.phase != Phase::Finished,
            old(self)@.iteration == old(self)@.n_operations,
            summarizable(old(self)@.latencies),
        ensures
            final(self).inv(),
            final(self)@.results == old(self)@.results.push(
                file_metrics_of(old(self)@.latencies, phase_time),
            ),
            final(self)@.phase == next_phase(old(self)@.phase),
            final(self)@.iteration == 0,
            final(self)@.position == 0,
            final(self)@.latencies == Seq::<u64>::empty(),
            final(self)@.runtime == old(self)@.runtime,
            final(self)@.n_operations == old(self)@.n_operations,
    {
        let mut latencies: Vec<u64> = Vec::new();
        std::mem::swap(&mut latencies, &mut self.latencies);
        let metrics = FileMetrics::new(latencies, phase_time);
        self.results.push(metrics);
        self.phase = match self.phase {
            Phase::SequentialWrite => Phase::SequentialRead,
            Phase::SequentialRead => Phase::RandomRead,
            Phase::RandomRead => Phase::WriteThenRead,
            _ => Phase::Finished,
        };
        self.iteration = 0;
        self.position = 0;
    }

    /// The metrics of the four phases, in order, once the benchmark has
    /// finished.
    pub fn results(&self) -> (r: Option<(FileMetrics, FileMetrics, FileMetrics, FileMetrics)>)
        requires
            self.inv(),
        ensures
            r is Some <==> self@.phase == Phase::Finished,
            r matches Some(m) ==> m.0 == self@.results[0] && m.1 == self@.results[1] && m.2
                == self@.results[2] && m.3 == self@.results[3],
            r matches Some(m) ==> m.0.total_operations == self@.n_operations
                && m.1.total_operations == self@.n_operations && m.2.total_operations
                == self@.n_operations && m.3.total_operations == self@.n_operations,
    {
        if self.phase == Phase::Finished {
            Some((self.results[0], self.results[1], self.results[2], self.results[3]))
        } else {
            None
        }
    }
}

/// Calls `rand::random::<usize>()`, which draws a `usize` from the
/// thread-local generator. Any `usize` may come back, so nothing is stated
/// of the result.
#[verifier::external_body]
fn random_usize() -> usize {
    rand::random::<usize>()
}

} // verus!
