use collections_futures::TreeFuture;
use futures::stream::StreamExt;
use std::sync::Arc;
use std::sync::Mutex;

fn must_be_send<S: Send>(_value: &S) {}

#[test]
fn tree_future_test_basic_insertion() {
    let async_block = async move {
        let mut tree_future = TreeFuture::new();

        let _ = tree_future.insert_future(1, futures::future::ready(10));
        let _ = tree_future.insert_future(2, futures::future::ready(10));
        let _ = tree_future.insert_future(3, futures::future::ready(10));

        let (id, val) = tree_future.next().await.unwrap();
        assert_eq!(id, 1);
        assert_eq!(val.unwrap(), 10);

        let (id, val) = tree_future.next().await.unwrap();
        assert_eq!(id, 2);
        assert_eq!(val.unwrap(), 10);

        let (id, val) = tree_future.next().await.unwrap();
        assert_eq!(id, 3);
        assert_eq!(val.unwrap(), 10);
    };
    let _ = futures::executor::block_on(async_block);
}

#[test]
fn tree_future_test_cancellation() {
    let async_block = async move {
        let mut tree_future = TreeFuture::new();

        let _ = tree_future.insert_future(1, futures::future::ready(10));
        let abort_handle = tree_future.insert_abortable_future(2, futures::future::ready(10));
        let _ = tree_future.insert_future(3, futures::future::ready(10));

        let (id, val) = tree_future.next().await.unwrap();
        assert_eq!(id, 1);
        assert_eq!(val.unwrap(), 10);

        let _ = abort_handle.abort();
        let (id, val) = tree_future.next().await.unwrap();
        assert_eq!(id, 2);
        assert!(val.is_err());

        let (id, val) = tree_future.next().await.unwrap();
        assert_eq!(id, 3);
        assert_eq!(val.unwrap(), 10);
    };
    let _ = futures::executor::block_on(async_block);
}

#[test]
fn tree_future_test_removal() {
    let async_block = async move {
        let mut tree_future = TreeFuture::new();

        let _ = tree_future.insert_future(1, futures::future::ready(10));
        let _ = tree_future.insert_future(2, futures::future::ready(10));
        let _ = tree_future.insert_future(3, futures::future::ready(10));

        let (id, val) = tree_future.next().await.unwrap();
        assert_eq!(id, 1);
        assert_eq!(val.unwrap(), 10);

        let removed_future = tree_future.remove_future(2).unwrap();
        let future_value = removed_future.await.unwrap();
        assert_eq!(future_value, 10);

        let (id, val) = tree_future.next().await.unwrap();
        assert_eq!(id, 3);
        assert_eq!(val.unwrap(), 10);
    };
    let _ = futures::executor::block_on(async_block);
}

#[test]
fn tree_future_drains_three_in_key_order() {
    let mut tree_future = TreeFuture::new();
    tree_future.insert_future(1, futures::future::ready(10));
    tree_future.insert_future(2, futures::future::ready(20));
    tree_future.insert_future(3, futures::future::ready(30));

    let drained: Vec<(i32, i32)> = futures::executor::block_on(async move {
        let mut out = Vec::new();
        while let Some((id, val)) = tree_future.next().await {
            out.push((id, val.unwrap()));
        }
        out
    });
    assert_eq!(drained, vec![(1, 10), (2, 20), (3, 30)]);
}

#[test]
fn tree_future_keys_surface_ascending_whatever_the_insertion_order() {
    let mut tree_future = TreeFuture::new();
    tree_future.insert_future(30, futures::future::ready(3));
    tree_future.insert_future(-5, futures::future::ready(1));
    tree_future.insert_future(7, futures::future::ready(2));

    let keys: Vec<i32> = futures::executor::block_on(async move {
        let mut out = Vec::new();
        while let Some((id, _)) = tree_future.next().await {
            out.push(id);
        }
        out
    });
    assert_eq!(keys, vec![-5, 7, 30]);
}

#[test]
fn tree_future_mid_sequence_cancellation() {
    futures::executor::block_on(async move {
        let mut tree_future = TreeFuture::new();
        tree_future.insert_future(1, futures::future::ready(10));
        let handle = tree_future.insert_abortable_future(2, futures::future::ready(20));
        tree_future.insert_future(3, futures::future::ready(30));

        let (id, val) = tree_future.next().await.unwrap();
        assert_eq!(id, 1);
        assert_eq!(val.unwrap(), 10);

        handle.abort();

        let (id, val) = tree_future.next().await.unwrap();
        assert_eq!(id, 2);
        let err = val.unwrap_err();
        assert_eq!(err.describe(), "Aborted");

        let (id, val) = tree_future.next().await.unwrap();
        assert_eq!(id, 3);
        assert_eq!(val.unwrap(), 30);

        assert!(tree_future.next().await.is_none());
    });
}

#[test]
fn tree_future_cancellable_entry_left_alone_resolves_to_its_value() {
    futures::executor::block_on(async move {
        let mut tree_future = TreeFuture::new();
        let handle = tree_future.insert_abortable_future(4, futures::future::ready(40));

        let (id, val) = tree_future.next().await.unwrap();
        assert_eq!(id, 4);
        assert_eq!(val.unwrap(), 40);
        assert!(!handle.is_aborted());
        assert!(tree_future.next().await.is_none());
    });
}

#[test]
fn tree_future_caller_removal() {
    futures::executor::block_on(async move {
        let mut tree_future = TreeFuture::new();
        tree_future.insert_future(1, futures::future::ready(10));
        tree_future.insert_future(2, futures::future::ready(20));
        tree_future.insert_future(3, futures::future::ready(30));

        let (id, val) = tree_future.next().await.unwrap();
        assert_eq!(id, 1);
        assert_eq!(val.unwrap(), 10);

        let removed = tree_future.remove_future(2).unwrap();
        assert_eq!(removed.await.unwrap(), 20);

        let (id, val) = tree_future.next().await.unwrap();
        assert_eq!(id, 3);
        assert_eq!(val.unwrap(), 30);

        assert!(tree_future.next().await.is_none());
    });
}

#[test]
fn tree_future_remove_of_absent_key_is_none() {
    let mut tree_future: TreeFuture<i32, i32> = TreeFuture::new();
    assert!(tree_future.remove_future(9).is_none());
    tree_future.insert_future(1, futures::future::ready(10));
    assert!(tree_future.remove_future(9).is_none());
    assert_eq!(tree_future.len(), 1);
    assert!(tree_future.remove_future(1).is_some());
    assert!(tree_future.remove_future(1).is_none());
    assert!(tree_future.is_empty());
}

#[test]
fn tree_future_duplicate_key_overwrite() {
    futures::executor::block_on(async move {
        let mut tree_future = TreeFuture::new();
        tree_future.insert_future(5, futures::future::ready(String::from("A")));
        tree_future.insert_future(5, futures::future::ready(String::from("B")));
        assert_eq!(tree_future.len(), 1);

        let (id, val) = tree_future.next().await.unwrap();
        assert_eq!(id, 5);
        assert_eq!(val.unwrap(), "B");

        assert!(tree_future.next().await.is_none());
    });
}

#[test]
fn tree_future_empty_then_refill() {
    futures::executor::block_on(async move {
        let mut tree_future = TreeFuture::new();
        assert!(tree_future.next().await.is_none());
        assert!(tree_future.next().await.is_none());

        tree_future.insert_future(7, futures::future::ready(70));
        let (id, val) = tree_future.next().await.unwrap();
        assert_eq!(id, 7);
        assert_eq!(val.unwrap(), 70);

        assert!(tree_future.next().await.is_none());
    });
}

#[test]
fn tree_future_pending_lowest_is_discarded() {
    let waker = futures::task::noop_waker();
    let mut cx = std::task::Context::from_waker(&waker);

    let mut tree_future = TreeFuture::new();
    tree_future.insert_future(1, futures::future::pending::<i32>());
    tree_future.insert_future(2, futures::future::ready(20));
    assert_eq!(tree_future.len(), 2);

    assert!(tree_future.poll_next(&mut cx).is_pending());
    assert_eq!(tree_future.len(), 1);
    assert!(!tree_future.contains_key(&1));
    assert_eq!(tree_future.keys().copied().collect::<Vec<i32>>(), vec![2]);

    match tree_future.poll_next(&mut cx) {
        std::task::Poll::Ready(Some((id, val))) => {
            assert_eq!(id, 2);
            assert_eq!(val.unwrap(), 20);
        }
        _ => panic!("the second step surfaces the entry under key 2"),
    }
    assert!(matches!(tree_future.poll_next(&mut cx), std::task::Poll::Ready(None)));
    assert!(tree_future.is_empty());
}

#[test]
fn tree_future_polls_the_lowest_key_only() {
    let waker = futures::task::noop_waker();
    let mut cx = std::task::Context::from_waker(&waker);

    let polls: Vec<Arc<Mutex<u32>>> = (0..3).map(|_| Arc::new(Mutex::new(0))).collect();
    let mut tree_future = TreeFuture::new();
    for (slot, key) in [20, 10, 30].into_iter().enumerate() {
        let seen = polls[slot].clone();
        tree_future.insert_future(
            key,
            futures::future::poll_fn(move |_| {
                *seen.lock().unwrap() += 1;
                std::task::Poll::Ready(key * 2)
            }),
        );
    }

    match tree_future.poll_next(&mut cx) {
        std::task::Poll::Ready(Some((id, val))) => {
            assert_eq!(id, 10);
            assert_eq!(val.unwrap(), 20);
        }
        _ => panic!("the first step surfaces the entry under key 10"),
    }
    assert_eq!(*polls[0].lock().unwrap(), 0);
    assert_eq!(*polls[1].lock().unwrap(), 1);
    assert_eq!(*polls[2].lock().unwrap(), 0);
    assert_eq!(tree_future.keys().copied().collect::<Vec<i32>>(), vec![20, 30]);
}

#[test]
fn tree_future_removal_does_not_poll() {
    let seen = Arc::new(Mutex::new(0u32));
    let counter = seen.clone();
    let mut tree_future = TreeFuture::new();
    tree_future.insert_future(
        1,
        futures::future::poll_fn(move |_| {
            *counter.lock().unwrap() += 1;
            std::task::Poll::Ready(11)
        }),
    );
    let removed = tree_future.remove_future(1).unwrap();
    assert_eq!(*seen.lock().unwrap(), 0);
    assert!(tree_future.is_empty());
    assert_eq!(futures::executor::block_on(removed).unwrap(), 11);
    assert_eq!(*seen.lock().unwrap(), 1);
}

#[test]
fn tree_future_smaller_key_inserted_between_steps_is_next() {
    futures::executor::block_on(async move {
        let mut tree_future = TreeFuture::new();
        tree_future.insert_future(5, futures::future::ready(50));
        tree_future.insert_future(9, futures::future::ready(90));

        let (id, _) = tree_future.next().await.unwrap();
        assert_eq!(id, 5);

        tree_future.insert_future(2, futures::future::ready(20));
        let (id, val) = tree_future.next().await.unwrap();
        assert_eq!(id, 2);
        assert_eq!(val.unwrap(), 20);

        let (id, _) = tree_future.next().await.unwrap();
        assert_eq!(id, 9);
    });
}

#[test]
fn tree_future_cancel_handle_never_faults() {
    futures::executor::block_on(async move {
        let mut tree_future = TreeFuture::new();
        let polled = tree_future.insert_abortable_future(1, futures::future::ready(10));
        let removed = tree_future.insert_abortable_future(2, futures::future::ready(20));
        let cancelled = tree_future.insert_abortable_future(3, futures::future::ready(30));

        cancelled.abort();
        cancelled.abort();

        let (id, val) = tree_future.next().await.unwrap();
        assert_eq!(id, 1);
        assert_eq!(val.unwrap(), 10);
        polled.abort();
        polled.abort();

        let taken = tree_future.remove_future(2).unwrap();
        drop(taken);
        removed.abort();
        removed.abort();

        let (id, val) = tree_future.next().await.unwrap();
        assert_eq!(id, 3);
        assert!(val.is_err());
        cancelled.abort();

        assert!(tree_future.next().await.is_none());
    });
}

#[test]
fn tree_future_cancelled_before_first_poll_surfaces_the_cancellation() {
    futures::executor::block_on(async move {
        let mut tree_future = TreeFuture::new();
        let handle = tree_future.insert_abortable_future(1, futures::future::pending::<i32>());
        handle.abort();

        let (id, val) = tree_future.next().await.unwrap();
        assert_eq!(id, 1);
        let err = val.unwrap_err();
        assert_eq!(err.describe(), "Aborted");
        assert_eq!(format!("{:?}", err), "Aborted");
    });
}

#[test]
fn tree_future_removed_cancellable_entry_still_obeys_its_handle() {
    futures::executor::block_on(async move {
        let mut tree_future = TreeFuture::new();
        let handle = tree_future.insert_abortable_future(1, futures::future::pending::<i32>());
        let removed = tree_future.remove_future(1).unwrap();
        handle.abort();
        assert!(removed.await.is_err());
    });
}

#[test]
fn tree_future_round_trip_of_immediate_computations() {
    let writes = [(4, 40), (1, 10), (4, 41), (3, 30), (1, 11), (2, 20)];
    let mut tree_future = TreeFuture::new();
    for (key, value) in writes {
        tree_future.insert_future(key, futures::future::ready(value));
    }
    assert_eq!(tree_future.len(), 4);

    let mut surfaced: Vec<(i32, i32)> = futures::executor::block_on(async move {
        let mut out = Vec::new();
        while let Some((id, val)) = tree_future.next().await {
            out.push((id, val.unwrap()));
        }
        out
    });
    assert_eq!(surfaced, vec![(1, 11), (2, 20), (3, 30), (4, 41)]);
    surfaced.sort();
    let mut last_writes = vec![(4, 41), (3, 30), (1, 11), (2, 20)];
    last_writes.sort();
    assert_eq!(surfaced, last_writes);
}

#[test]
fn tree_future_observers_and_write_access() {
    let mut tree_future = TreeFuture::new();
    assert!(tree_future.is_empty());
    assert_eq!(tree_future.len(), 0);
    tree_future.insert_future(8, futures::future::ready(1u8));
    tree_future.insert_future(3, futures::future::ready(2u8));
    assert!(!tree_future.is_empty());
    assert_eq!(tree_future.len(), 2);
    assert_eq!(tree_future.keys().copied().collect::<Vec<u64>>(), vec![3, 8]);
    assert!(tree_future.contains_key(&8));
    tree_future.clear();
    assert!(tree_future.is_empty());
}

#[test]
fn tree_future_may_move_across_threads() {
    let mut tree_future = TreeFuture::new();
    tree_future.insert_future(1, futures::future::ready(10));
    must_be_send(&tree_future);
    let removed = tree_future.remove_future(1).unwrap();
    must_be_send(&removed);
}

#[test]
fn tree_future_orders_keys_of_any_ordered_type() {
    let mut by_name = TreeFuture::new();
    by_name.insert_future(String::from("pear"), futures::future::ready(2u8));
    by_name.insert_future(String::from("apple"), futures::future::ready(1u8));
    by_name.insert_future(String::from("quince"), futures::future::ready(3u8));
    let names: Vec<(String, u8)> =
        futures::executor::block_on(by_name.map(|(key, val)| (key, val.unwrap())).collect());
    assert_eq!(
        names,
        vec![(String::from("apple"), 1), (String::from("pear"), 2), (String::from("quince"), 3)]
    );

    let mut by_pair = TreeFuture::new();
    by_pair.insert_future((2u8, 0i64), futures::future::ready(20i64));
    by_pair.insert_future((1u8, 9i64), futures::future::ready(19i64));
    by_pair.insert_future((1u8, -9i64), futures::future::ready(-19i64));
    let pairs: Vec<i64> =
        futures::executor::block_on(by_pair.map(|(_, val)| val.unwrap()).collect());
    assert_eq!(pairs, vec![-19, 19, 20]);
}

#[test]
fn tree_future_computation_that_needs_several_polls_is_lost_at_the_first() {
    let waker = futures::task::noop_waker();
    let mut cx = std::task::Context::from_waker(&waker);

    let mut polls_left = 1u8;
    let mut tree_future = TreeFuture::new();
    tree_future.insert_future(
        1,
        futures::future::poll_fn(move |_| {
            if polls_left == 0 {
                std::task::Poll::Ready(10)
            } else {
                polls_left -= 1;
                std::task::Poll::Pending
            }
        }),
    );
    assert!(tree_future.poll_next(&mut cx).is_pending());
    assert!(tree_future.is_empty());
    assert!(matches!(tree_future.poll_next(&mut cx), std::task::Poll::Ready(None)));
}
