use std::sync::Arc;

use innexgo_exams_service::guard::ResourceGuard;

#[test]
fn guard_starts_free_and_tracks_its_holder() {
    let mut g = ResourceGuard::new(5i64);
    assert!(!g.is_held());
    g.acquire();
    assert!(g.is_held());
    assert_eq!(*g.borrow_value(), 5);
    let prev = g.replace(9);
    assert_eq!(prev, 5);
    assert_eq!(*g.borrow_value(), 9);
    g.release();
    assert!(!g.is_held());
}

#[test]
fn guard_releases_on_the_error_path_too() {
    // A critical section that fails must still give the guard back.
    let mut g = ResourceGuard::new(0i64);
    let outcome: Result<i64, &str> = Err("insert failed");
    g.acquire();
    let result = match outcome {
        Ok(v) => {
            g.replace(v);
            g.release();
            Ok(v)
        }
        Err(e) => {
            g.release();
            Err(e)
        }
    };
    assert!(result.is_err());
    assert!(!g.is_held());
    g.acquire();
    assert_eq!(*g.borrow_value(), 0);
}

#[test]
fn concurrent_writes_are_serialized_and_none_is_lost() {
    // N concurrent critical sections against the one shared guard: the
    // final count equals N, so no two writes interleaved.
    let n: i64 = 32;
    let rt = tokio::runtime::Builder::new_multi_thread()
        .worker_threads(4)
        .build()
        .unwrap();
    let shared = Arc::new(tokio::sync::Mutex::new(ResourceGuard::new(0i64)));
    rt.block_on(async {
        let mut handles = Vec::new();
        for _ in 0..n {
            let s = Arc::clone(&shared);
            handles.push(tokio::spawn(async move {
                let mut g = s.lock().await;
                g.acquire();
                let v = *g.borrow_value();
                tokio::task::yield_now().await;
                g.replace(v + 1);
                g.release();
            }));
        }
        for h in handles {
            h.await.unwrap();
        }
    });
    let count = rt.block_on(async {
        let mut g = shared.lock().await;
        g.acquire();
        let v = *g.borrow_value();
        g.release();
        v
    });
    assert_eq!(count, n);
}
