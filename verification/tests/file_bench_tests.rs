use rt_bench::file_bench::{FileBench, FileOp, Phase, Runtime};
use rt_bench::metrics::SummaryError;
use rt_bench::PACKET_SIZE;

const PS: u64 = PACKET_SIZE as u64;

#[test]
fn random_offsets_per_runtime() {
    assert_eq!(FileBench::random_read_position(Runtime::Compio, 3, 1000), 512);
    assert_eq!(FileBench::random_read_position(Runtime::Monoio, 3, 1000), 1000);
    assert_eq!(FileBench::random_read_position(Runtime::Tokio, 3, 1000), 512);
    assert_eq!(FileBench::random_read_position(Runtime::Compio, 1, 12345), 0);
    assert_eq!(FileBench::random_read_position(Runtime::Tokio, 10, 12345), 3072);
    assert_eq!(FileBench::random_read_position(Runtime::Monoio, 10, 12345), 3129);
}

#[test]
fn random_offsets_stay_inside_written_data() {
    for r in [0usize, 1, 511, 512, 4607, 4608, usize::MAX] {
        for rt in [Runtime::Compio, Runtime::Monoio, Runtime::Tokio] {
            let o = FileBench::random_read_position(rt, 10, r);
            assert!(o + PS <= 10 * PS);
            if rt != Runtime::Monoio {
                assert_eq!(o % PS, 0);
            }
        }
    }
}

fn run_phase(bench: &mut FileBench, n: usize, random: usize) -> Vec<Vec<FileOp>> {
    let mut all = Vec::new();
    for _ in 0..n {
        assert!(bench.has_next_iteration());
        all.push(bench.iteration_ops_with(random));
        assert!(bench.can_record(PS));
        bench.record_iteration(100, PS);
    }
    assert!(!bench.has_next_iteration());
    all
}

#[test]
fn compio_benchmark_plan() {
    let mut b = FileBench::new(Runtime::Compio, 3);
    assert_eq!(b.setup_ops(), vec![FileOp::Open]);
    assert_eq!(b.phase(), Phase::SequentialWrite);
    assert!(b.prologue_ops().is_empty());
    let w = run_phase(&mut b, 3, 0);
    assert_eq!(w, vec![vec![FileOp::WriteAt(0)], vec![FileOp::WriteAt(PS)], vec![FileOp::WriteAt(2 * PS)]]);
    assert!(b.epilogue_ops().is_empty());
    assert!(b.results().is_none());
    b.finish_phase(1000);
    assert_eq!(b.phase(), Phase::SequentialRead);
    let r = run_phase(&mut b, 3, 0);
    assert_eq!(r, vec![vec![FileOp::ReadAt(0)], vec![FileOp::ReadAt(PS)], vec![FileOp::ReadAt(2 * PS)]]);
    b.finish_phase(1000);
    assert_eq!(b.phase(), Phase::RandomRead);
    let rr = run_phase(&mut b, 3, 1000);
    assert_eq!(rr[0], vec![FileOp::ReadAt(512)]);
    b.finish_phase(1000);
    assert_eq!(b.phase(), Phase::WriteThenRead);
    let wr = run_phase(&mut b, 3, 0);
    assert_eq!(wr[2], vec![FileOp::WriteAt(2 * PS), FileOp::ReadAt(2 * PS)]);
    b.finish_phase(600);
    assert_eq!(b.phase(), Phase::Finished);
    assert!(!b.has_next_iteration());
    let (a, c, d, e) = b.results().unwrap();
    for m in [a, c, d] {
        assert_eq!(m.total_operations, 3);
        assert_eq!(m.avg_latency, 100);
        assert_eq!(m.total_time, 1000);
    }
    assert_eq!(e.total_time, 600);
}

#[test]
fn tokio_benchmark_plan() {
    let mut b = FileBench::new(Runtime::Tokio, 2);
    assert!(b.setup_ops().is_empty());
    assert_eq!(b.prologue_ops(), vec![FileOp::Open]);
    let w = run_phase(&mut b, 2, 0);
    assert_eq!(w, vec![vec![FileOp::Seek(0), FileOp::Write], vec![FileOp::Seek(PS), FileOp::Write]]);
    assert_eq!(b.epilogue_ops(), vec![FileOp::SyncAll]);
    b.finish_phase(1);
    assert_eq!(b.prologue_ops(), vec![FileOp::Seek(0)]);
    let r = run_phase(&mut b, 2, 0);
    assert_eq!(r[0], vec![FileOp::Seek(0), FileOp::Read]);
    assert_eq!(r[1], vec![FileOp::Seek(PS), FileOp::Read]);
    b.finish_phase(1);
    let rr = run_phase(&mut b, 2, 700);
    assert_eq!(rr[0], vec![FileOp::Seek(0), FileOp::Read]);
    b.finish_phase(1);
    assert_eq!(b.prologue_ops(), vec![FileOp::Seek(0)]);
    let wr = run_phase(&mut b, 2, 0);
    assert_eq!(wr[1], vec![FileOp::Write, FileOp::Seek(PS), FileOp::Read]);
    b.finish_phase(1);
    assert!(b.results().is_some());
}

#[test]
fn monoio_random_reads_unaligned() {
    let mut b = FileBench::new(Runtime::Monoio, 2);
    run_phase(&mut b, 2, 0);
    b.finish_phase(1);
    run_phase(&mut b, 2, 0);
    b.finish_phase(1);
    assert_eq!(b.iteration_ops_with(700), vec![FileOp::ReadAt(188)]);
}

#[test]
fn drawn_random_reads_are_in_range() {
    let mut b = FileBench::new(Runtime::Compio, 8);
    run_phase(&mut b, 8, 0);
    b.finish_phase(1);
    run_phase(&mut b, 8, 0);
    b.finish_phase(1);
    for _ in 0..50 {
        let ops = b.next_iteration_ops();
        assert_eq!(ops.len(), 1);
        match ops[0] {
            FileOp::ReadAt(o) => {
                assert_eq!(o % PS, 0);
                assert!(o + PS <= 8 * PS);
            }
            _ => panic!("a random read reads at an offset"),
        }
    }
}

#[test]
fn transferred_bytes_is_first_data_op() {
    let ops = vec![FileOp::Write, FileOp::Seek(512), FileOp::Read];
    assert_eq!(FileBench::transferred_bytes(&ops, &vec![512, 0, 600]), 512);
    let ops = vec![FileOp::Seek(0), FileOp::Read];
    assert_eq!(FileBench::transferred_bytes(&ops, &vec![0, 300]), 300);
    let ops = vec![FileOp::Seek(0), FileOp::SyncAll];
    assert_eq!(FileBench::transferred_bytes(&ops, &vec![0, 0]), 0);
    assert_eq!(FileBench::transferred_bytes(&vec![], &vec![]), 0);
}

#[test]
fn single_compio_random_read_reads_at_zero() {
    let mut b = FileBench::new(Runtime::Compio, 1);
    run_phase(&mut b, 1, 0);
    b.finish_phase(1);
    run_phase(&mut b, 1, 0);
    b.finish_phase(1);
    assert_eq!(b.phase(), Phase::RandomRead);
    assert_eq!(b.next_iteration_ops(), vec![FileOp::ReadAt(0)]);
}

#[test]
fn empty_phase_cannot_be_summarised() {
    let b = FileBench::new(Runtime::Tokio, 0);
    assert!(!b.has_next_iteration());
    assert_eq!(b.phase_summary_error(), Some(SummaryError::DivisionByZero));
    let mut c = FileBench::new(Runtime::Tokio, 2);
    run_phase(&mut c, 2, 0);
    assert_eq!(c.phase_summary_error(), None);
}

#[test]
fn position_overflow_is_refused() {
    let mut b = FileBench::new(Runtime::Monoio, 2);
    b.record_iteration(1, u64::MAX);
    assert!(!b.can_record(1));
    assert!(b.can_record(0));
}

/// Follows the file cursor through operations and collects the offsets of
/// the packets read or written.
fn packet_offsets(ops: &[FileOp], cursor: &mut u64) -> Vec<u64> {
    let mut offsets = Vec::new();
    for op in ops {
        match *op {
            FileOp::Seek(o) => *cursor = o,
            FileOp::Write | FileOp::Read => {
                offsets.push(*cursor);
                *cursor += PS;
            }
            FileOp::WriteAt(o) | FileOp::ReadAt(o) => offsets.push(o),
            FileOp::Open => *cursor = 0,
            FileOp::SyncAll => {}
        }
    }
    offsets
}

#[test]
fn sequential_phases_are_sequential_on_every_runtime() {
    for rt in [Runtime::Compio, Runtime::Monoio, Runtime::Tokio] {
        let mut b = FileBench::new(rt, 4);
        let mut cursor = 0u64;
        for _ in 0..2 {
            let mut offsets = Vec::new();
            offsets.extend(packet_offsets(&b.prologue_ops(), &mut cursor));
            for ops in run_phase(&mut b, 4, 0) {
                offsets.extend(packet_offsets(&ops, &mut cursor));
            }
            assert_eq!(offsets, vec![0, PS, 2 * PS, 3 * PS]);
            b.finish_phase(1);
        }
    }
}

#[test]
fn write_then_read_reads_back_each_packet() {
    for rt in [Runtime::Compio, Runtime::Monoio, Runtime::Tokio] {
        let mut b = FileBench::new(rt, 3);
        for _ in 0..3 {
            run_phase(&mut b, 3, 0);
            b.finish_phase(1);
        }
        let mut cursor = 99 * PS;
        let mut offsets = packet_offsets(&b.prologue_ops(), &mut cursor);
        for ops in run_phase(&mut b, 3, 0) {
            offsets.extend(packet_offsets(&ops, &mut cursor));
        }
        assert_eq!(offsets, vec![0, 0, PS, PS, 2 * PS, 2 * PS]);
    }
}

#[test]
fn aligned_random_reads_skip_the_last_packet() {
    for r in [0usize, 4607, 4608, 12345, usize::MAX] {
        for rt in [Runtime::Compio, Runtime::Tokio] {
            assert!(FileBench::random_read_position(rt, 10, r) <= 8 * PS);
        }
    }
}
