use splittable::split::Splittable;
use tokio::io::{AsyncReadExt, AsyncWriteExt};

#[test]
fn the_halves_work_in_two_tasks_at_once() {
    let runtime = tokio::runtime::Builder::new_multi_thread()
        .worker_threads(2)
        .build()
        .unwrap();
    // What is written into `far` is read from `near`.
    let (near, far) = tokio::io::duplex(64);
    let (mut r, mut w) = Splittable::new(near, far).split();
    let (r, w, got) = runtime.block_on(async move {
        let reading = tokio::spawn(async move {
            let mut got = [0u8; 4];
            r.read_exact(&mut got).await.unwrap();
            (r, got)
        });
        let writing = tokio::spawn(async move {
            w.write_all(&[112, 105, 110, 103]).await.unwrap();
            w.flush().await.unwrap();
            w
        });
        let (r, got) = reading.await.unwrap();
        let w = writing.await.unwrap();
        (r, w, got)
    });
    assert_eq!(got, [112, 105, 110, 103]);
    assert!(r.is_pair_of(&w));
    assert!(w.is_pair_of(&r));
    let _joined = r.unsplit(w);
}

#[test]
fn the_halves_can_be_dropped_in_two_tasks() {
    let runtime = tokio::runtime::Builder::new_multi_thread()
        .worker_threads(2)
        .build()
        .unwrap();
    let (kept_r, kept_w) = Splittable::new(0u8, 0u8).split();
    runtime.block_on(async {
        for _ in 0..64 {
            let (r, w) = Splittable::new(1u8, 2u8).split();
            let first = tokio::spawn(async move {
                let part = *r;
                drop(r);
                part
            });
            let second = tokio::spawn(async move {
                let part = *w;
                drop(w);
                part
            });
            assert_eq!(first.await.unwrap(), 1);
            assert_eq!(second.await.unwrap(), 2);
        }
    });
    assert!(kept_r.is_pair_of(&kept_w));
}
