use dmtest::io;
use dmtest::pool;
use dmtest::writeboost::{sweep_caches, Options, StatKey, Table, Writeboost};
use dmtest::Error;
use dmtest::Sector;
use dmtest::Stack;

#[test]
fn test_rw() {
    let mut env = pool::env();
    let slow = env.alloc_device(Sector::MB(500)).unwrap();
    let mut fast = env.alloc_device(Sector::MB(100)).unwrap();
    sweep_caches(&mut fast);
    let table = Table {
        backing_dev: slow.path(),
        cache_dev: fast.path(),
        options: Options::default(),
    };
    let mut dev = Writeboost::create(table, slow, fast).unwrap();
    assert!(io::test_blk_rw(&mut dev, Sector(0), Sector::KB(1)));
    assert!(io::test_blk_rw(&mut dev, Sector(0), Sector::MB(50)));
    assert!(io::test_blk_rw(&mut dev, Sector(0), Sector::MB(200)));
}

#[test]
fn test_stat() {
    let mut env = pool::env();
    let slow = env.alloc_device(Sector::MB(500)).unwrap();
    let mut fast = env.alloc_device(Sector::MB(100)).unwrap();
    sweep_caches(&mut fast);
    let table = Table {
        backing_dev: slow.path(),
        cache_dev: fast.path(),
        options: Options::default(),
    };
    let dev = Writeboost::create(table, slow, fast).unwrap();

    // After create
    let stat0 = dev.status().stat;
    for i in 0..16 {
        let k = StatKey::from_bits(i);
        let v = *stat0.get(&k).unwrap();
        assert_eq!(v, 0);
    }

    // After open
    let rw = io::open(dev);
    let dev = rw.into_inner();
    let stat1 = dev.status().stat;
    for i in 0..16 {
        let k = StatKey::from_bits(i);
        let v = *stat1.get(&k).unwrap();
        assert_eq!(v, 0);
    }
}

#[test]
fn test_stat_key_bits_roundtrip() {
    for i in 0..16u8 {
        let k = StatKey::from_bits(i);
        assert_eq!(k.index(), i as usize);
    }
}

#[test]
fn test_wb_empty_cache_is_config_error() {
    let mut env = pool::env();
    let slow = env.alloc_device(Sector::MB(1)).unwrap();
    let fast = env.alloc_device(Sector(0)).unwrap();
    let table = Table {
        backing_dev: slow.path(),
        cache_dev: fast.path(),
        options: Options::default(),
    };
    let r = Writeboost::create(table, slow, fast);
    assert!(matches!(r, Err(Error::Config)));
}

#[test]
fn test_wb_wrong_table_is_config_error() {
    let mut env = pool::env();
    let slow = env.alloc_device(Sector::MB(1)).unwrap();
    let fast = env.alloc_device(Sector::MB(1)).unwrap();
    let table = Table {
        backing_dev: fast.path(),
        cache_dev: slow.path(),
        options: Options::default(),
    };
    let r = Writeboost::create(table, slow, fast);
    assert!(matches!(r, Err(Error::Config)));
}

#[test]
fn test_wb_size_and_teardown() {
    let mut env = pool::env();
    let slow = env.alloc_device(Sector::MB(2)).unwrap();
    let fast = env.alloc_device(Sector::MB(1)).unwrap();
    let table = Table {
        backing_dev: slow.path(),
        cache_dev: fast.path(),
        options: Options::default(),
    };
    let dev = Writeboost::create(table, slow, fast).unwrap();
    assert_eq!(dmtest::blkdev::getsize(&dev), Sector::MB(2));
    let order = dev.release();
    assert_eq!(
        order,
        vec![
            String::from("mem-0-wb"),
            String::from("mem-0"),
            String::from("mem-1"),
        ]
    );
}
