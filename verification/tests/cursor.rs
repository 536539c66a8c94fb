use cs_parser::Data;

#[test]
fn data_u1() {
    let bytes: Vec<u8> = vec![0xff, 0x00];
    let mut data = Data::new(&bytes);
    assert_eq!(data.u1().unwrap(), 0xff);
    assert_eq!(data.u1().unwrap(), 0x00);
    assert_eq!(data.last_u1().unwrap(), 0x00);
}

#[test]
fn data_u2() {
    let bytes: Vec<u8> = vec![0xff, 0x33, 0x11, 0x00];
    let mut data = Data::new(&bytes);
    assert_eq!(data.u2().unwrap(), 0xff33);
    assert_eq!(data.u2().unwrap(), 0x1100);
    assert_eq!(data.last_u2().unwrap(), 0x1100);
}

#[test]
fn data_u4() {
    let bytes: Vec<u8> = vec![0xff, 0x33, 0x11, 0x00];
    let mut data = Data::new(&bytes);
    assert_eq!(data.u4().unwrap(), 0xff331100);
    assert_eq!(data.last_u4().unwrap(), 0xff331100);
}

#[test]
fn data_truncated() {
    let bytes: Vec<u8> = vec![0xff];
    let mut data = Data::new(&bytes);
    assert!(data.u2().is_err());
    let empty: Vec<u8> = vec![];
    let mut data = Data::new(&empty);
    assert!(data.u1().is_err());
    assert!(data.last_u1().is_err());
}

#[test]
fn data_bytes_run() {
    let bytes: Vec<u8> = vec![1, 2, 3, 4, 5];
    let mut data = Data::new(&bytes);
    assert_eq!(data.u1().unwrap(), 1);
    assert_eq!(data.bytes(3).unwrap(), vec![2, 3, 4]);
    assert_eq!(data.pos(), 4);
    assert!(data.bytes(2).is_err());
}
