use gap_buffer::GapBuffer;

#[test]
fn new() {
    let buf: GapBuffer<i32> = GapBuffer::new(100);
    assert_eq!(buf.gap_beg, 0);
    assert_eq!(buf.gap_end, 100);
    assert_eq!(buf.gap_cap(), 100);
    assert_eq!(buf.cap(), 100);
    assert_eq!(buf.len(), 0);
    assert_eq!(buf.buffer, vec![0; 100]);
}

#[test]
fn insert() {
    let mut buf: GapBuffer<i32> = GapBuffer::new(2);
    buf.insert(1);
    assert_eq!(buf.gap_beg, 1);
    assert_eq!(buf.gap_end, 2);
    assert_eq!(buf.buffer, vec![1, 0]);
}

#[test]
fn insert_extend() {
    let mut buf: GapBuffer<i32> = GapBuffer::new(2);
    buf.insert(1);
    buf.insert(2);
    buf.insert(3);
    assert_eq!(buf.gap_beg, 3);
    assert_eq!(buf.gap_end, 4);
    assert_eq!(buf.buffer, vec![1, 2, 3, 0]);
}

#[test]
fn set_cursor() {
    let mut buf: GapBuffer<i32> = GapBuffer::new(2);
    buf.insert(1);
    buf.set_cursor(0);
    assert_eq!(buf.gap_beg, 0);
    assert_eq!(buf.gap_end, 1);
    assert_eq!(buf.buffer, vec![0, 1]);
}

#[test]
fn set_cursor_pos_lt_beg() {
    let mut buf: GapBuffer<i32> = GapBuffer::new(4);
    buf.insert(1);
    buf.insert(2);
    buf.insert(3);
    assert_eq!(buf.gap_beg, 3);
    assert_eq!(buf.gap_end, 4);
    assert_eq!(buf.buffer, vec![1, 2, 3, 0]);
    buf.set_cursor(1);
    assert_eq!(buf.gap_beg, 1);
    assert_eq!(buf.gap_end, 2);
    assert_eq!(buf.buffer, vec![1, 0, 2, 3]);
}

#[test]
fn set_cursor_pos_eq_beg() {
    let mut buf: GapBuffer<i32> = GapBuffer::new(2);
    buf.insert(1);
    buf.set_cursor(1);
    assert_eq!(buf.gap_beg, 1);
    assert_eq!(buf.gap_end, 2);
    assert_eq!(buf.buffer, vec![1, 0]);
}

#[test]
fn set_cursor_pos_eq_end() {
    let mut buf: GapBuffer<i32> = GapBuffer::new(4);
    buf.insert(1);
    buf.insert(2);
    buf.set_cursor(0);
    assert_eq!(buf.gap_beg, 0);
    assert_eq!(buf.gap_end, 2);
    buf.set_cursor(2);
    assert_eq!(buf.gap_beg, 2);
    assert_eq!(buf.gap_end, 4);
    assert_eq!(buf.buffer, vec![1, 2, 0, 0]);
}

#[test]
fn set_cursor_pos_gt_end() {
    let mut buf: GapBuffer<i32> = GapBuffer::new(4);
    buf.insert(1);
    buf.insert(2);
    buf.insert(3);
    assert_eq!(buf.gap_beg, 3);
    assert_eq!(buf.gap_end, 4);
    assert_eq!(buf.buffer, vec![1, 2, 3, 0]);
    buf.set_cursor(1);
    assert_eq!(buf.gap_beg, 1);
    assert_eq!(buf.gap_end, 2);
    assert_eq!(buf.buffer, vec![1, 0, 2, 3]);
    buf.set_cursor(3);
    assert_eq!(buf.gap_beg, 3);
    assert_eq!(buf.gap_end, 4);
    assert_eq!(buf.buffer, vec![1, 2, 3, 0]);
}
