use std::fmt::Debug;

use concurrent_threads::fork::{Fork, Inline};
use concurrent_threads::iter::{par_drain, DrainProducer};
use concurrent_threads::sched::CORE_NUMS;

fn split(len: &mut usize) -> bool {
    if *len / 2 != 0 {
        *len /= 2;
        true
    } else {
        false
    }
}

fn helper<T: Send + Debug>(len: usize, mut split_len: usize, producer: DrainProducer<T>) -> usize {
    if split(&mut split_len) {
        let mid = len / 2;
        let (left, right) = producer.split_at(mid);
        let (l, r) = Inline.join(
            || helper(mid, split_len, left),
            || helper(len - mid, split_len, right),
        );
        l + r
    } else {
        let items = producer.into_vec();
        items.iter().for_each(|item| {
            println!("{:?}", item);
        });
        items.len()
    }
}

#[test]
fn tests() {
    let mut items: Vec<_> = (0..100)
        .map(|_| rand::random::<u16>())
        .enumerate()
        .collect();

    let len = items.len();

    let producer = par_drain(&mut items);
    assert!(items.is_empty());
    assert_eq!(producer.len(), len);

    assert_eq!(helper(len, CORE_NUMS, producer), 100);
}

#[test]
fn drain_split_keeps_order() {
    let mut v = vec![9, 8, 7, 6];
    let p = par_drain(&mut v);
    assert!(v.is_empty());
    let (l, r) = p.split_at(1);
    assert_eq!(l.into_vec(), vec![9]);
    assert_eq!(r.into_vec(), vec![8, 7, 6]);
    let p = DrainProducer::new(vec![1, 2]);
    let (l, r) = p.split_at(2);
    assert_eq!(l.into_vec(), vec![1, 2]);
    assert!(r.into_vec().is_empty());
}
