use dmtest::blkdev;
use dmtest::io;
use dmtest::io::pattern::{Pattern, PatternIO};
use dmtest::pool;
use dmtest::stack::linear::{Linear, Table};
use dmtest::stack::luks::Luks;
use dmtest::stack::flakey;
use dmtest::EmptyDMStack;
use dmtest::Error;
use dmtest::Sector;
use dmtest::Stack;

fn test_blk_rw<S: Stack>(s: S) -> S {
    let mut rw = io::open(s);
    let wbuf: Vec<u8> = vec![1; 512];
    rw.write(&wbuf, Sector::KB(1), Sector(1));
    let mut rbuf: Vec<u8> = vec![0; 512];
    rw.read(&mut rbuf, Sector::KB(1), Sector(1));
    assert_eq!(rbuf, wbuf);
    rw.into_inner()
}

#[test]
fn test_sector() {
    let x = Sector::MB(5);
    let y = Sector::MB(3);
    assert_eq!(x + y, Sector::MB(8));
    assert_eq!(x - y, Sector::KB(2048));
    assert_eq!(x * 4, Sector::MB(20));
}

#[test]
fn test_mem_pool() {
    let mut env = pool::env();
    let mut xs = vec![];
    for _ in 0..10 {
        xs.push(env.alloc_device(Sector::MB(1)).unwrap());
    }
}

#[test]
fn test_blkdev_size() {
    let mut env = pool::env();
    let dev = env.alloc_device(Sector(127)).unwrap();
    let sz = blkdev::getsize(&dev);
    assert_eq!(sz, Sector(127));
}

#[test]
fn test_mem_rw() {
    let mut env = pool::env();
    let dev = env.alloc_device(Sector::MB(1)).unwrap();
    test_blk_rw(dev);
}

#[test]
fn test_pattern_io() {
    let mut env = pool::env();
    let dev = env.alloc_device(Sector::GB(1)).unwrap();
    let mut rw = io::open(dev);
    let pats = vec![
        Pattern::Write(Sector::MB(2)),
        Pattern::Skip(Sector::MB(3)),
        Pattern::Read(Sector::MB(2)),
        Pattern::Skip(Sector::MB(3)),
    ];
    let mut pat = PatternIO::new().max_io_amount(Sector::MB(500));
    pat.submit(&mut rw, &pats).unwrap();
}

#[test]
fn test_linear() {
    let mut env = pool::env();
    let dev = env.alloc_device(Sector::MB(100)).unwrap();
    let dm = EmptyDMStack::new();
    let tab = Table {
        backing_dev: dev.path(),
        offset: Sector::MB(20),
        len: Sector::MB(40),
    };
    let linear = Linear::new(dm, tab, dev).unwrap();
    let sz = blkdev::getsize(&linear);
    assert_eq!(sz, Sector::MB(40));
    test_blk_rw(linear);
}

#[test]
fn test_luks() {
    let mut env = pool::env();
    let mut dev = env.alloc_device(Sector::MB(100)).unwrap();
    Luks::format(&mut dev).unwrap();
    let luks = Luks::new(dev).unwrap();
    test_blk_rw(luks);
}

#[test]
fn test_flakey() {
    let mut env = pool::env();
    let dev = env.alloc_device(Sector::MB(100)).unwrap();
    let dm = EmptyDMStack::new();
    let tab = flakey::Table {
        backing_dev: dev.path(),
        up_interval_sec: 8,
        down_interval_sec: 2,
    };
    let flakey_dev = flakey::Flakey::new(dm, tab, dev).unwrap();
    test_blk_rw(flakey_dev);
}

#[test]
fn test_alloc_unrepresentable_size() {
    let mut env = pool::env();
    let r = env.alloc_device(Sector(u64::MAX));
    assert!(matches!(r, Err(Error::Allocation)));
}

#[test]
fn test_linear_overrun_is_config_error() {
    let mut env = pool::env();
    let dev = env.alloc_device(Sector::MB(100)).unwrap();
    let dm = EmptyDMStack::new();
    let tab = Table {
        backing_dev: dev.path(),
        offset: Sector::MB(80),
        len: Sector::MB(40),
    };
    let r = Linear::new(dm, tab, dev);
    assert!(matches!(r, Err(Error::Config)));
}

#[test]
fn test_linear_wrong_backing_is_config_error() {
    let mut env = pool::env();
    let dev = env.alloc_device(Sector::MB(100)).unwrap();
    let dm = EmptyDMStack::new();
    let tab = Table {
        backing_dev: String::from("mem-7"),
        offset: Sector::MB(0),
        len: Sector::MB(10),
    };
    let r = Linear::new(dm, tab, dev);
    assert!(matches!(r, Err(Error::Config)));
}

#[test]
fn test_luks_unformatted_is_config_error() {
    let mut env = pool::env();
    let dev = env.alloc_device(Sector::MB(100)).unwrap();
    let r = Luks::new(dev);
    assert!(matches!(r, Err(Error::Config)));
}

#[test]
fn test_luks_too_small_to_format() {
    let mut env = pool::env();
    let mut dev = env.alloc_device(Sector(8)).unwrap();
    let r = Luks::format(&mut dev);
    assert!(matches!(r, Err(Error::Config)));
}

#[test]
fn test_luks_size_excludes_header() {
    let mut env = pool::env();
    let mut dev = env.alloc_device(Sector::MB(100)).unwrap();
    Luks::format(&mut dev).unwrap();
    let luks = Luks::new(dev).unwrap();
    let sz = blkdev::getsize(&luks);
    assert_eq!(sz, Sector::MB(100) - Sector(dmtest::stack::luks::LUKS_HEADER_SECTORS));
}

#[test]
fn test_pattern_budget_exceeded() {
    let mut env = pool::env();
    let dev = env.alloc_device(Sector::MB(10)).unwrap();
    let mut rw = io::open(dev);
    let pats = vec![Pattern::Write(Sector::MB(1))];
    let mut pat = PatternIO::new().max_io_amount(Sector(100));
    let r = pat.submit(&mut rw, &pats);
    assert_eq!(r, Err(Error::BudgetExceeded));
    // The over-budget write was refused before any I/O: nothing consumed,
    // the cursor still at the start.
    assert_eq!(pat.cursor, 0);
    assert_eq!(pat.consumed, 0);
}

#[test]
fn test_pattern_out_of_range() {
    let mut env = pool::env();
    let dev = env.alloc_device(Sector::MB(1)).unwrap();
    let mut rw = io::open(dev);
    let pats = vec![Pattern::Skip(Sector::MB(2))];
    let mut pat = PatternIO::new();
    let r = pat.submit(&mut rw, &pats);
    assert_eq!(r, Err(Error::Io));
}

#[test]
fn test_pattern_fill_is_deterministic() {
    let mut env = pool::env();
    let dev = env.alloc_device(Sector(4)).unwrap();
    let mut rw = io::open(dev);
    let pats = vec![Pattern::Write(Sector(2))];
    let mut pat = PatternIO::new();
    pat.submit(&mut rw, &pats).unwrap();
    let mut rbuf: Vec<u8> = vec![0; 1024];
    rw.read(&mut rbuf, Sector(0), Sector(2));
    // A write of 2 sectors lays down the length-dependent fill byte 2.
    assert!(rbuf.iter().all(|b| *b == 2));
}

#[test]
fn test_pattern_restarts_from_cursor() {
    let mut env = pool::env();
    let dev = env.alloc_device(Sector(16)).unwrap();
    let mut rw = io::open(dev);
    let mut pat = PatternIO::new();
    pat.submit(&mut rw, &vec![Pattern::Write(Sector(4))]).unwrap();
    assert_eq!(pat.cursor, 4);
    pat.submit(&mut rw, &vec![Pattern::Write(Sector(4))]).unwrap();
    assert_eq!(pat.cursor, 8);
    assert_eq!(pat.consumed, 8);
}

#[test]
fn test_teardown_order() {
    let mut env = pool::env();
    let dev = env.alloc_device(Sector::MB(10)).unwrap();
    let flakey_dev = flakey::Flakey::new(
        EmptyDMStack::new(),
        flakey::Table {
            backing_dev: dev.path(),
            up_interval_sec: 1,
            down_interval_sec: 1,
        },
        dev,
    )
    .unwrap();
    let linear_dev = Linear::new(
        EmptyDMStack::new(),
        Table {
            backing_dev: flakey_dev.path(),
            offset: Sector::MB(1),
            len: Sector::MB(2),
        },
        flakey_dev,
    )
    .unwrap();
    let order = linear_dev.release();
    assert_eq!(
        order,
        vec![
            String::from("mem-0-flakey-linear"),
            String::from("mem-0-flakey"),
            String::from("mem-0"),
        ]
    );
}
