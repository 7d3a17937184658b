use futex::ring_buffer::{plan_read, CellValue, ReadPlan, ReadStep, RingBuffer, WriteTarget};

/// Writes one value the way a writer does, holding each cell it touches.
fn write(ring: &RingBuffer, cells: &mut [CellValue<u64>], value: u64) {
    let mut value = value;
    loop {
        match ring.write_target().unwrap() {
            WriteTarget::Evict(r) => {
                ring.evict(r, &mut cells[r]);
            }
            WriteTarget::Write(w) => match ring.publish(w, &mut cells[w], value) {
                Ok(()) => return,
                Err(back) => value = back,
            },
        }
    }
}

/// Reads one value, or `None` where a reader would have to wait.
fn read(ring: &RingBuffer, cells: &mut [CellValue<u64>]) -> Option<u64> {
    for _ in 0..8 {
        let r = ring.read_target().unwrap();
        match ring.take_ready(r, &mut cells[r]) {
            ReadStep::Value(v) => return Some(v),
            ReadStep::Wait => return None,
            ReadStep::Retry => {}
        }
    }
    panic!("a read kept starting again");
}

fn cells(n: usize) -> Vec<CellValue<u64>> {
    (0..n).map(|_| CellValue::Vacant).collect()
}

#[test]
fn reader_keeping_pace_sees_every_value_in_order() {
    let ring = RingBuffer::new(3);
    let mut cells = cells(3);
    for i in 0..1000u64 {
        write(&ring, &mut cells, i);
        assert_eq!(read(&ring, &mut cells), Some(i));
    }
    assert_eq!(read(&ring, &mut cells), None);
}

#[test]
fn reader_one_behind_sees_every_value_in_order() {
    let ring = RingBuffer::new(3);
    let mut cells = cells(3);
    write(&ring, &mut cells, 0);
    for i in 1..1000u64 {
        write(&ring, &mut cells, i);
        assert_eq!(read(&ring, &mut cells), Some(i - 1));
    }
    assert_eq!(read(&ring, &mut cells), Some(999));
    assert_eq!(read(&ring, &mut cells), None);
}

#[test]
fn overwrite_keeps_the_latest_values() {
    for n in [3usize, 4, 8] {
        let ring = RingBuffer::new(n);
        let mut cells = cells(n);
        let writes = 3 * n as u64 + 1;
        for i in 0..writes {
            write(&ring, &mut cells, i);
        }
        let kept: Vec<u64> = (0..n - 1).map(|_| read(&ring, &mut cells).unwrap()).collect();
        let latest: Vec<u64> = (writes - (n as u64 - 1)..writes).collect();
        assert_eq!(kept, latest);
        assert_eq!(read(&ring, &mut cells), None);
        write(&ring, &mut cells, 1000);
        assert_eq!(read(&ring, &mut cells), Some(1000));
    }
}

#[test]
fn interleaved_writers_deliver_only_written_values() {
    let ring = RingBuffer::new(4);
    let mut cells = cells(4);
    let mut written = Vec::new();
    let mut seen = Vec::new();
    for round in 0..200u64 {
        for writer in 0..3u64 {
            let v = writer * 1_000_000 + round;
            write(&ring, &mut cells, v);
            written.push(v);
        }
        if round % 2 == 0 {
            while let Some(v) = read(&ring, &mut cells) {
                seen.push(v);
            }
        }
        let r = ring.read_target().unwrap();
        assert!(r < ring.capacity());
    }
    assert!(!seen.is_empty());
    for v in &seen {
        assert!(written.contains(v));
    }
    for writer in 0..3u64 {
        let own: Vec<u64> = seen.iter().copied().filter(|v| v / 1_000_000 == writer).collect();
        assert!(own.windows(2).all(|w| w[0] < w[1]));
    }
}

#[test]
fn distance_and_next_index() {
    let ring = RingBuffer::new(5);
    assert_eq!(ring.capacity(), 5);
    assert_eq!(ring.positive_distance(1, 3), 2);
    assert_eq!(ring.positive_distance(3, 1), 3);
    assert_eq!(ring.positive_distance(4, 0), 1);
    assert_eq!(ring.positive_distance(2, 2), 0);
    assert_eq!(ring.next_index(3), 4);
    assert_eq!(ring.next_index(4), 0);
    assert_eq!(ring.plan_write(0, 1), WriteTarget::Evict(1));
    assert_eq!(ring.plan_write(4, 0), WriteTarget::Evict(0));
    assert_eq!(ring.plan_write(2, 0), WriteTarget::Write(2));
    assert_eq!(ring.plan_write(3, 3), WriteTarget::Write(3));
}

#[test]
fn cell_steps() {
    let mut c: CellValue<u64> = CellValue::Occupied(7);
    assert!(!c.is_vacant());
    assert_eq!(c.take(), Some(7));
    assert!(c.is_vacant());
    assert_eq!(c.take(), None);
    let mut x: CellValue<u64> = CellValue::Cancelled;
    assert_eq!(x.take(), None);
    assert!(matches!(x, CellValue::Cancelled));
    assert!(!x.is_vacant());
}

#[test]
fn evicted_cell_is_not_read() {
    let ring = RingBuffer::new(3);
    let mut cells = cells(3);
    write(&ring, &mut cells, 10);
    write(&ring, &mut cells, 11);
    assert_eq!(ring.write_target(), Ok(WriteTarget::Evict(0)));
    assert!(ring.evict(0, &mut cells[0]));
    assert!(matches!(cells[0], CellValue::Cancelled));
    // The index moved on: a second eviction of the same cell does nothing.
    assert!(!ring.evict(0, &mut cells[0]));
    assert!(matches!(ring.take_ready(0, &mut cells[0]), ReadStep::Retry));
    assert_eq!(read(&ring, &mut cells), Some(11));
    assert_eq!(read(&ring, &mut cells), None);
}

#[test]
fn stale_publish_hands_the_value_back() {
    let ring = RingBuffer::new(3);
    let mut cells = cells(3);
    write(&ring, &mut cells, 1);
    assert_eq!(ring.publish(0, &mut cells[0], 2), Err(2));
    assert!(matches!(cells[0], CellValue::Occupied(1)));
}

#[test]
fn read_plans() {
    let vacant: CellValue<u64> = CellValue::Vacant;
    let cancelled: CellValue<u64> = CellValue::Cancelled;
    let occupied: CellValue<u64> = CellValue::Occupied(5);
    // The read index moved: start again, whatever the cell holds.
    assert_eq!(plan_read(1, 2, 0, &occupied), ReadPlan::Retry);
    assert_eq!(plan_read(1, 2, 1, &vacant), ReadPlan::Retry);
    assert_eq!(plan_read(1, 1, 2, &vacant), ReadPlan::Wait);
    assert_eq!(plan_read(1, 1, 1, &vacant), ReadPlan::Wait);
    assert_eq!(plan_read(1, 1, 1, &cancelled), ReadPlan::Wait);
    assert_eq!(plan_read(1, 1, 2, &cancelled), ReadPlan::Retry);
    assert_eq!(plan_read(1, 1, 2, &occupied), ReadPlan::Take);
    assert_eq!(plan_read(1, 1, 1, &occupied), ReadPlan::Retry);
}

#[test]
fn reader_waits_on_a_cancelled_cell_no_writer_reached() {
    let ring = RingBuffer::new(3);
    let mut cells = cells(3);
    for v in 0..5 {
        write(&ring, &mut cells, v);
    }
    assert_eq!(read(&ring, &mut cells), Some(3));
    assert_eq!(read(&ring, &mut cells), Some(4));
    let r = ring.read_target().unwrap();
    assert!(matches!(cells[r], CellValue::Cancelled));
    assert!(matches!(ring.take_ready(r, &mut cells[r]), ReadStep::Wait));
}
