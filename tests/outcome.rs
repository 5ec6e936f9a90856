use wgpu_async_bridge::outcome::{settle, Completion};

#[test]
fn returned_value_is_delivered() {
    let c: Completion<u64, String> = Completion::Returned(1024);
    assert_eq!(settle(c), Some(Ok(1024)));
}

#[test]
fn panic_payload_is_kept() {
    let c: Completion<u64, String> = Completion::Panicked("invalid descriptor".to_string());
    assert_eq!(settle(c), Some(Err("invalid descriptor".to_string())));
}

#[test]
fn cancelled_worker_yields_nothing() {
    let c: Completion<u64, String> = Completion::Cancelled;
    assert_eq!(settle(c), None);
}

#[test]
fn boxed_panic_payload_round_trips() {
    let payload: Box<dyn std::any::Any + Send> = Box::new(7u32);
    let settled = settle(Completion::<(), Box<dyn std::any::Any + Send>>::Panicked(payload));
    match settled {
        Some(Err(p)) => assert_eq!(p.downcast_ref::<u32>(), Some(&7)),
        _ => panic!("the payload was not handed back"),
    }
}

#[test]
fn direct_results_round_trip() {
    for direct in [Ok(3i32), Err("boom")] {
        let c = match direct {
            Ok(v) => Completion::Returned(v),
            Err(p) => Completion::Panicked(p),
        };
        assert_eq!(settle(c), Some(direct));
    }
}
