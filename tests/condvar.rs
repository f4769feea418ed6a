use shm::{Condvar, Mutex};
use std::sync::Arc;
use std::time::{Duration, Instant};

fn runtime() -> tokio::runtime::Runtime {
    tokio::runtime::Builder::new_multi_thread()
        .worker_threads(2)
        .enable_time()
        .build()
        .unwrap()
}

#[test]
fn test_condvar() {
    let mutex: Arc<Mutex<u64>> = Arc::new(Mutex::default());
    let condvar = Arc::new(Condvar::default());
    let rt = runtime();

    let mut wakeups = 0;
    let writer = rt.spawn({
        let mutex = mutex.clone();
        let condvar = condvar.clone();
        async move {
            tokio::time::sleep(Duration::from_secs(1)).await;
            let mut g = mutex.lock();
            *g = 123;
            Mutex::unlock(g);
            condvar.notify_one();
        }
    });

    let mut m = mutex.lock();
    while *m < 100 {
        m = condvar.wait(m);
        wakeups += 1;
    }

    assert_eq!(*m, 123);
    Mutex::unlock(m);
    rt.block_on(writer).unwrap();

    // Check that the main thread returned from `wait` about once per
    // notification, while still allowing for a few spurious wake ups.
    assert!(wakeups < 10);
}

#[test]
fn wait_timeout_elapses_without_notification() {
    let mutex = Mutex::new(0u64);
    let condvar = Condvar::new();
    let start = Instant::now();
    let (g, res) = condvar.wait_timeout(mutex.lock(), Duration::from_millis(10));
    assert!(res.timed_out());
    assert!(start.elapsed() >= Duration::from_millis(10));
    Mutex::unlock(g);
}

#[test]
fn wait_timeout_returns_early_when_notified() {
    let mutex: Arc<Mutex<u64>> = Arc::new(Mutex::new(0));
    let condvar = Arc::new(Condvar::new());
    let rt = runtime();
    let notifier = rt.spawn({
        let mutex = mutex.clone();
        let condvar = condvar.clone();
        async move {
            tokio::time::sleep(Duration::from_millis(50)).await;
            let mut g = mutex.lock();
            *g = 1;
            Mutex::unlock(g);
            condvar.notify_all();
        }
    });
    let mut g = mutex.lock();
    let mut timed_out = false;
    while *g == 0 && !timed_out {
        let (g2, res) = condvar.wait_timeout(g, Duration::from_secs(5));
        g = g2;
        timed_out = res.timed_out();
    }
    assert!(!timed_out);
    assert_eq!(*g, 1);
    Mutex::unlock(g);
    rt.block_on(notifier).unwrap();
}

#[test]
fn notify_without_waiters_is_harmless() {
    let mutex = Mutex::new(5u64);
    let condvar = Condvar::new();
    condvar.notify_one();
    condvar.notify_all();
    let (g, res) = condvar.wait_timeout(mutex.lock(), Duration::from_millis(5));
    assert!(res.timed_out());
    assert_eq!(*g, 5);
    Mutex::unlock(g);
}
