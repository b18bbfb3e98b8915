use sia::processes::{busiest_process, largest_by_memory, ProcessSample, TOP_MEMORY_COUNT};

fn p(pid: u32, cpu: u32, memory_bytes: u64) -> ProcessSample {
    ProcessSample { name: format!("p{}", pid), pid, cpu, memory_bytes }
}

#[test]
fn busiest_is_last_among_equals() {
    assert_eq!(busiest_process(&vec![]), None);
    let procs = vec![p(1, 500, 0), p(2, 900, 0), p(3, 100, 0), p(4, 900, 0), p(5, 800, 0)];
    assert_eq!(busiest_process(&procs), Some(3));
    assert_eq!(busiest_process(&vec![p(9, 0, 0)]), Some(0));
}

#[test]
fn five_largest_by_memory() {
    let procs = vec![p(1, 0, 10), p(2, 0, 70), p(3, 0, 30), p(4, 0, 70), p(5, 0, 5), p(6, 0, 50), p(7, 0, 60), p(8, 0, 1)];
    assert_eq!(largest_by_memory(&procs, TOP_MEMORY_COUNT), vec![1, 3, 6, 5, 2]);
    assert_eq!(largest_by_memory(&procs, 0), Vec::<usize>::new());
}

#[test]
fn fewer_processes_than_asked() {
    let procs = vec![p(1, 0, 3), p(2, 0, 3), p(3, 0, 9)];
    assert_eq!(largest_by_memory(&procs, 5), vec![2, 0, 1]);
    assert_eq!(largest_by_memory(&vec![], 5), Vec::<usize>::new());
}
