use kyron::read_buf::ReadBuf;

#[test]
fn new_and_capacity() {
    let mut buf = [0u8; 8];
    let read_buf = ReadBuf::new(&mut buf);
    assert_eq!(read_buf.capacity(), 8);
    assert_eq!(read_buf.filled().len(), 0);
    assert_eq!(read_buf.initialized().len(), 8);
}

#[test]
fn uninit_and_capacity() {
    let mut buf = [0u8; 8];
    let read_buf = ReadBuf::uninit(&mut buf);
    assert_eq!(read_buf.capacity(), 8);
    assert_eq!(read_buf.filled().len(), 0);
    assert_eq!(read_buf.initialized().len(), 0);
}

#[test]
fn put_slice_and_set_filled() {
    let mut buf = [0u8; 8];
    let mut read_buf = ReadBuf::new(&mut buf);
    read_buf.put_slice(&[1, 2, 3]);
    assert_eq!(read_buf.filled(), &[1, 2, 3]);
    assert_eq!(read_buf.initialized()[..3], [1, 2, 3]);
    read_buf.set_filled(2);
    assert_eq!(read_buf.filled(), &[1, 2]);
}

#[test]
fn initialized_unfilled() {
    let mut buf = [0u8; 8];
    let mut read_buf = ReadBuf::new(&mut buf);
    read_buf.put_slice(&[1, 2, 3]);
    let unfilled = read_buf.initialized_unfilled();
    assert_eq!(unfilled.len(), 5);
}

#[test]
fn filled_and_initialized_mut() {
    let mut buf = [0u8; 4];
    let mut read_buf = ReadBuf::new(&mut buf);
    {
        let filled_mut = read_buf.filled_mut();
        assert_eq!(filled_mut.len(), 0);
    }
    {
        let initialized_mut = read_buf.initialized_mut();
        assert_eq!(initialized_mut.len(), 4);
    }
}

#[test]
fn slice_assume_init_and_mut() {
    let mut buf = [0u8; 4];
    let mut read_buf = ReadBuf::new(&mut buf);
    read_buf.put_slice(&[10, 20]);
    assert_eq!(read_buf.filled(), &[10, 20]);
    let filled_mut = read_buf.filled_mut();
    filled_mut[0] = 99;
    assert_eq!(read_buf.filled(), &[99, 20]);
    assert_eq!(read_buf.initialized()[..2], [99, 20]);
    let initialized_mut = read_buf.initialized_mut();
    initialized_mut[2..].copy_from_slice(&[1, 2]);
    assert_eq!(read_buf.initialized(), &[99, 20, 1, 2]);
}

#[test]
fn initialized_unfilled_empty() {
    let mut buf = [0u8; 4];
    let mut read_buf = ReadBuf::new(&mut buf);
    let unfilled = read_buf.initialized_unfilled();
    assert_eq!(unfilled.len(), 4);
    read_buf.put_slice(&[1, 2, 3, 4]);
    let unfilled = read_buf.initialized_unfilled();
    assert_eq!(unfilled.len(), 0);
}

#[test]
fn put_slice_multiple_times() {
    let mut buf = [0u8; 6];
    let mut read_buf = ReadBuf::new(&mut buf);
    read_buf.put_slice(&[1, 2]);
    read_buf.put_slice(&[3, 4]);
    assert_eq!(read_buf.filled(), &[1, 2, 3, 4]);
    assert_eq!(read_buf.initialized()[..4], [1, 2, 3, 4]);
    read_buf.put_slice(&[5, 6]);
    assert_eq!(read_buf.filled(), &[1, 2, 3, 4, 5, 6]);
    assert_eq!(read_buf.initialized(), &[1, 2, 3, 4, 5, 6]);
}

#[test]
fn initialize_unfilled() {
    let mut buf = [0u8; 6];
    let mut read_buf = ReadBuf::new(&mut buf);
    read_buf.put_slice(&[1, 2, 3]);
    let unfilled = read_buf.initialize_unfilled();
    assert_eq!(unfilled.len(), 3);
    unfilled.copy_from_slice(&[4, 5, 6]);
    assert_eq!(read_buf.initialized(), &[1, 2, 3, 4, 5, 6]);
}

#[test]
fn uninit_zeroed_by_initialize_unfilled() {
    let mut buf = [7u8; 5];
    {
        let mut read_buf = ReadBuf::uninit(&mut buf);
        read_buf.put_slice(&[1, 2]);
        assert_eq!(read_buf.initialized(), &[1, 2]);
        assert_eq!(read_buf.remaining(), 3);
        let rest = read_buf.initialize_unfilled();
        assert_eq!(rest, &[0, 0, 0]);
        read_buf.advance_filled(1);
        assert_eq!(read_buf.filled(), &[1, 2, 0]);
        read_buf.clear();
        assert_eq!(read_buf.filled().len(), 0);
        read_buf.assume_init(2);
        assert_eq!(read_buf.initialized().len(), 5);
        let tail = read_buf.unfilled_mut();
        tail[0] = 9;
    }
    assert_eq!(buf, [9, 2, 0, 0, 0]);
}
