use std::cell::Cell;
use std::rc::Rc;
use std::sync::Arc;
use std::sync::atomic::AtomicU32;
use std::sync::atomic::Ordering;
use std::sync::mpsc;
use std::time::Duration;
use std::time::Instant;

use futures::executor::LocalPool;
use futures::executor::ThreadPool;
use futures::future::AbortHandle;

use rx_scheduler::LocalScheduler;
use rx_scheduler::SharedScheduler;
use rx_scheduler::SpawnHandle;
use rx_scheduler::fire_task;
use rx_scheduler::task_future;

fn fresh_token() -> SpawnHandle {
    let (handle, _reg) = AbortHandle::new_pair();
    SpawnHandle::new(handle)
}

#[test]
fn fresh_token_is_open() {
    let token = fresh_token();
    assert!(!token.is_closed());
}

#[test]
fn unsubscribe_closes_token() {
    let mut token = fresh_token();
    token.unsubscribe();
    assert!(token.is_closed());
}

#[test]
fn unsubscribe_twice_same_as_once() {
    let mut token = fresh_token();
    token.unsubscribe();
    assert!(token.is_closed());
    token.unsubscribe();
    assert!(token.is_closed());
}

#[test]
fn identity_is_stable_and_distinguishes_tokens() {
    let a = fresh_token();
    let b = fresh_token();
    assert_eq!(a.identity(), a.identity());
    assert_ne!(a.identity(), b.identity());
}

#[test]
fn body_token_observes_callers_unsubscribe() {
    let pool = ThreadPool::new().unwrap();
    let (started_tx, started_rx) = mpsc::channel::<()>();
    let (go_tx, go_rx) = mpsc::channel::<()>();
    let (seen_tx, seen_rx) = mpsc::channel::<bool>();
    let mut token = pool
        .schedule(
            move |body_token: SpawnHandle, _state: ()| {
                started_tx.send(()).unwrap();
                go_rx.recv().unwrap();
                seen_tx.send(body_token.is_closed()).unwrap();
            },
            None,
            (),
        )
        .unwrap();
    started_rx.recv().unwrap();
    token.unsubscribe();
    go_tx.send(()).unwrap();
    assert!(seen_rx.recv().unwrap());
}

#[test]
fn guard_skips_body_when_closed() {
    let counter = Rc::new(Cell::new(0u32));
    let c = counter.clone();
    let ran = fire_task(true, move |_token, _state: ()| c.set(c.get() + 1), fresh_token(), ());
    assert!(!ran);
    assert_eq!(counter.get(), 0);
}

#[test]
fn guard_runs_body_once_when_open() {
    let counter = Rc::new(Cell::new(0u32));
    let c = counter.clone();
    let ran = fire_task(false, move |_token, _state: ()| c.set(c.get() + 1), fresh_token(), ());
    assert!(ran);
    assert_eq!(counter.get(), 1);
}

#[test]
fn guard_hands_state_to_body() {
    let seen = Rc::new(Cell::new(0u32));
    let s = seen.clone();
    let ran = fire_task(false, move |_token, state: u32| s.set(state), fresh_token(), 42u32);
    assert!(ran);
    assert_eq!(seen.get(), 42);
}

#[test]
fn thousand_shared_tasks_all_run() {
    let pool = ThreadPool::new().unwrap();
    let counter = Arc::new(AtomicU32::new(0));
    let (tx, rx) = mpsc::channel::<()>();
    for _ in 0..1000 {
        let c = counter.clone();
        let t = tx.clone();
        let r = pool.schedule(
            move |_token, _state: ()| {
                c.fetch_add(1, Ordering::SeqCst);
                t.send(()).unwrap();
            },
            None,
            (),
        );
        assert!(r.is_ok());
    }
    for _ in 0..1000 {
        rx.recv().unwrap();
    }
    assert_eq!(counter.load(Ordering::SeqCst), 1000);
}

#[test]
fn unsubscribe_within_delay_prevents_body() {
    let pool = ThreadPool::new().unwrap();
    let counter = Arc::new(AtomicU32::new(0));
    let c = counter.clone();
    let mut token = pool
        .schedule(
            move |_token, _state: ()| {
                c.fetch_add(1, Ordering::SeqCst);
            },
            Some(Duration::from_millis(50)),
            (),
        )
        .unwrap();
    token.unsubscribe();
    futures::executor::block_on(async_std::task::sleep(Duration::from_millis(200)));
    assert_eq!(counter.load(Ordering::SeqCst), 0);
}

#[test]
fn started_body_runs_to_completion_despite_unsubscribe() {
    let pool = ThreadPool::new().unwrap();
    let counter = Arc::new(AtomicU32::new(0));
    let c = counter.clone();
    let (started_tx, started_rx) = mpsc::channel::<()>();
    let (go_tx, go_rx) = mpsc::channel::<()>();
    let (done_tx, done_rx) = mpsc::channel::<()>();
    let mut token = pool
        .schedule(
            move |_token, _state: ()| {
                started_tx.send(()).unwrap();
                go_rx.recv().unwrap();
                c.fetch_add(1, Ordering::SeqCst);
                done_tx.send(()).unwrap();
            },
            None,
            (),
        )
        .unwrap();
    started_rx.recv().unwrap();
    token.unsubscribe();
    go_tx.send(()).unwrap();
    done_rx.recv().unwrap();
    assert_eq!(counter.load(Ordering::SeqCst), 1);
}

#[test]
fn delay_is_a_lower_bound() {
    let pool = ThreadPool::new().unwrap();
    let (tx, rx) = mpsc::channel::<Instant>();
    let begin = Instant::now();
    let r = pool.schedule(
        move |_token, _state: ()| {
            tx.send(Instant::now()).unwrap();
        },
        Some(Duration::from_millis(100)),
        (),
    );
    assert!(r.is_ok());
    let fired_at = rx.recv().unwrap();
    assert!(fired_at.duration_since(begin) >= Duration::from_millis(100));
}

#[test]
fn zero_delay_runs_like_no_delay() {
    let pool = ThreadPool::new().unwrap();
    let (tx, rx) = mpsc::channel::<u32>();
    let r = pool.schedule(
        move |_token, state: u32| {
            tx.send(state).unwrap();
        },
        Some(Duration::from_millis(0)),
        7u32,
    );
    assert!(r.is_ok());
    assert_eq!(rx.recv().unwrap(), 7);
}

#[test]
fn local_task_runs_on_driving_context() {
    let mut pool = LocalPool::new();
    let spawner = pool.spawner();
    let counter = Rc::new(Cell::new(0u32));
    let r = spawner.schedule(
        |_token, state: Rc<Cell<u32>>| {
            state.set(state.get() + 1);
        },
        None,
        counter.clone(),
    );
    assert!(r.is_ok());
    assert_eq!(counter.get(), 0);
    pool.run();
    assert_eq!(counter.get(), 1);
}

#[test]
fn local_unsubscribed_task_is_skipped() {
    let mut pool = LocalPool::new();
    let spawner = pool.spawner();
    let counter = Rc::new(Cell::new(0u32));
    let mut token = spawner
        .schedule(
            |_token, state: Rc<Cell<u32>>| {
                state.set(state.get() + 1);
            },
            None,
            counter.clone(),
        )
        .unwrap();
    token.unsubscribe();
    pool.run();
    assert_eq!(counter.get(), 0);
}

#[test]
fn local_submission_fails_once_pool_is_gone() {
    let pool = LocalPool::new();
    let spawner = pool.spawner();
    drop(pool);
    let r = spawner.schedule(|_token, _state: ()| {}, None, ());
    assert!(r.is_err());
}

#[test]
fn tokio_runtime_runs_task() {
    let rt = tokio::runtime::Builder::new_multi_thread().worker_threads(1).build().unwrap();
    let (tx, rx) = mpsc::channel::<u32>();
    let r = rt.schedule(
        move |_token, state: u32| {
            tx.send(state + 1).unwrap();
        },
        None,
        1u32,
    );
    assert!(r.is_ok());
    assert_eq!(rx.recv().unwrap(), 2);
}

#[test]
fn shared_runtime_handle_schedules_too() {
    let rt = Arc::new(
        tokio::runtime::Builder::new_multi_thread().worker_threads(1).build().unwrap(),
    );
    let (tx, rx) = mpsc::channel::<()>();
    let r = rt.schedule(
        move |_token, _state: ()| {
            tx.send(()).unwrap();
        },
        None,
        (),
    );
    assert!(r.is_ok());
    rx.recv().unwrap();
}

#[test]
fn tokio_unsubscribe_within_delay_prevents_body() {
    let rt = tokio::runtime::Builder::new_multi_thread().worker_threads(1).build().unwrap();
    let counter = Arc::new(AtomicU32::new(0));
    let c = counter.clone();
    let mut token = rt
        .schedule(
            move |_token, _state: ()| {
                c.fetch_add(1, Ordering::SeqCst);
            },
            Some(Duration::from_millis(50)),
            (),
        )
        .unwrap();
    token.unsubscribe();
    futures::executor::block_on(async_std::task::sleep(Duration::from_millis(200)));
    assert_eq!(counter.load(Ordering::SeqCst), 0);
}

#[test]
fn built_task_runs_when_spawned() {
    let pool = ThreadPool::new().unwrap();
    let (tx, rx) = mpsc::channel::<u32>();
    let (token, deferred) = task_future(
        move |_token, state: u32| {
            tx.send(state).unwrap();
        },
        9u32,
        None,
    );
    assert!(!token.is_closed());
    assert!(pool.spawn(deferred).is_ok());
    assert_eq!(rx.recv().unwrap(), 9);
}

#[test]
fn token_closed_before_spawn_skips_body() {
    let pool = ThreadPool::new().unwrap();
    let counter = Arc::new(AtomicU32::new(0));
    let c = counter.clone();
    let (mut token, deferred) = task_future(
        move |_token, _state: ()| {
            c.fetch_add(1, Ordering::SeqCst);
        },
        (),
        None,
    );
    token.unsubscribe();
    assert!(pool.spawn(deferred).is_ok());
    futures::executor::block_on(async_std::task::sleep(Duration::from_millis(100)));
    assert_eq!(counter.load(Ordering::SeqCst), 0);
}

#[test]
fn token_stays_open_until_unsubscribed() {
    let pool = ThreadPool::new().unwrap();
    let (tx, rx) = mpsc::channel::<()>();
    let token = pool
        .schedule(
            move |_token, _state: ()| {
                tx.send(()).unwrap();
            },
            None,
            (),
        )
        .unwrap();
    rx.recv().unwrap();
    assert!(!token.is_closed());
}

#[test]
fn unsubscribe_after_completion_is_harmless() {
    let pool = ThreadPool::new().unwrap();
    let counter = Arc::new(AtomicU32::new(0));
    let c = counter.clone();
    let (tx, rx) = mpsc::channel::<()>();
    let mut token = pool
        .schedule(
            move |_token, _state: ()| {
                c.fetch_add(1, Ordering::SeqCst);
                tx.send(()).unwrap();
            },
            None,
            (),
        )
        .unwrap();
    rx.recv().unwrap();
    token.unsubscribe();
    token.unsubscribe();
    assert!(token.is_closed());
    assert_eq!(counter.load(Ordering::SeqCst), 1);
}
