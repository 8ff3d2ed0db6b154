use clockcheck::{common, fsm};
use rand::random;
use std::time::Instant;

/// Builds a corpus of biased-random strings: valid timestamps, near-valid
/// strings, and garbage, so that both deciders are exercised on accepting and
/// rejecting paths.
fn build_corpus() -> Vec<String> {
    let count: usize = 1_000_000;
    let mut data: Vec<String> = Vec::new();
    for _ in 0..count {
        let mut s = String::new();

        let r: u8 = random::<u8>();
        match r % 16 {
            0 => (),
            1..=2 => s.push('0'),
            3..=7 => s.push('1'),
            8..=11 => s.push('2'),
            12..=13 => {
                let c: u8 = '0' as u8 + random::<u8>() % 10;
                s.push(c as char);
            }
            14 => s.push(':'),
            _ => s.push(random()),
        };

        let r: u8 = random::<u8>();
        match r % 16 {
            0..=13 => {
                let c: u8 = '0' as u8 + random::<u8>() % 10;
                s.push(c as char);
            }
            14 => s.push(':'),
            _ => s.push(random()),
        };

        let r: u8 = random::<u8>();
        if r < 192 {
            s.push(':');
        } else if r < 216 {
            s.push(random());
        }

        let r: u8 = random::<u8>();
        match r % 16 {
            0 => (),
            1..=6 => {
                let c: u8 = '0' as u8 + random::<u8>() % 6;
                s.push(c as char);
            }
            7..=13 => {
                let c: u8 = '0' as u8 + random::<u8>() % 10;
                s.push(c as char);
            }
            _ => s.push(random()),
        };

        let r: u8 = random::<u8>();
        match r % 16 {
            0 => (),
            1..=13 => {
                let c: u8 = '0' as u8 + random::<u8>() % 10;
                s.push(c as char);
            }
            _ => s.push(random()),
        };

        let r: u8 = random::<u8>();
        if r > 216 {
            s.push(random());
        }

        data.push(s);
    }
    data
}

fn print_elapsed(elapsed: u128) {
    if elapsed < 1_000 {
        println!("The test took {}ns to finish.", elapsed);
    } else if elapsed < 1_000_000 {
        let elapsed = elapsed as f64 / 1e3;
        println!("The test took {}us to finish.", elapsed);
    } else {
        let elapsed = elapsed as f64 / 1e6;
        println!("The test took {}ms to finish.", elapsed);
    }
}

#[test]
fn it_works() {
    let data = build_corpus();
    for s in &data {
        let s = s.as_str();
        let cr = common::valid_time(s);
        let fr = fsm::valid_time(s);
        assert_eq!(fr, cr, "string: \"{}\"\nfsm: {}\ncommon: {}", s, fr, cr);
    }
}

#[test]
fn common() {
    let data = build_corpus();
    let mut elapsed: u128 = 0;
    for s in &data {
        let s = s.as_str();
        let inst = Instant::now();
        common::valid_time(s);
        elapsed += inst.elapsed().as_nanos();
    }
    print_elapsed(elapsed);
}

#[test]
fn fsm() {
    let data = build_corpus();
    let mut elapsed: u128 = 0;
    for s in &data {
        let s = s.as_str();
        let inst = Instant::now();
        fsm::valid_time(s);
        elapsed += inst.elapsed().as_nanos();
    }
    print_elapsed(elapsed);
}
