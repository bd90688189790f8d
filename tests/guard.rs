use unwind_guard::{
    catch_unwind_or_abort, catch_unwind_or_forget, catch_unwind_with, catch_unwind_wrapped, dispose_as, drop_or_abort,
    drop_or_else, drop_or_forget, settle, Disposal, Disposition, Finalized, OnFault, Payload, Settled,
    Verdict,
};

#[test]
fn test_catch_unwind_or_forget() {
    assert_eq!(catch_unwind_or_forget(Ok::<&str, u8>("success")), Ok("success"));
    let plan = catch_unwind_or_forget(Err::<(), &str>("first"));
    assert_eq!(plan, Err(Disposal { value: "first", on_fault: OnFault::Forget }));
    let on_fault = plan.unwrap_err().on_fault;
    assert_eq!(settle(on_fault, Finalized::Raised("second")), Settled::Leak("second"));
}

#[test]
fn test_catch_unwind_wrapped() {
    assert!(matches!(catch_unwind_wrapped(Ok::<&str, u8>("success")), Ok("success")));

    match catch_unwind_wrapped(Err::<(), &str>("first")) {
        Ok(()) => unreachable!(),
        Err(payload) => {
            let plan = payload.drop_or_forget();
            assert_eq!(plan.value, "first");
            assert_eq!(settle(plan.on_fault, Finalized::Raised("second")), Settled::Leak("second"));
        }
    }

    match catch_unwind_wrapped(Err::<(), &str>("first")) {
        Ok(()) => unreachable!(),
        Err(payload) => {
            let p = payload.into_inner();
            assert_eq!(dispose_as(p, Some(Disposition::ResumeUnwind)), Verdict::Resume("first"));
        }
    }
}

#[test]
fn clean_finalization_neither_aborts_nor_leaks() {
    let a = drop_or_abort(vec![1u8, 2, 3]);
    assert_eq!(a.value, vec![1u8, 2, 3]);
    assert_eq!(a.on_fault, OnFault::Abort);
    assert_eq!(settle(a.on_fault, Finalized::<u32>::Completed), Settled::Done);
    let f = drop_or_forget(String::from("v"));
    assert_eq!(f.value, "v");
    assert_eq!(f.on_fault, OnFault::Forget);
    assert_eq!(settle(f.on_fault, Finalized::<u32>::Completed), Settled::Done);
}

#[test]
fn completed_work_passes_through_every_boundary() {
    assert_eq!(catch_unwind_or_abort(Ok::<i32, u8>(42)), Ok(42));
    assert_eq!(catch_unwind_or_forget(Ok::<i32, u8>(42)), Ok(42));
    assert!(matches!(catch_unwind_wrapped(Ok::<i32, u8>(42)), Ok(42)));
}

#[test]
fn faulting_payload_aborts_or_leaks() {
    let plan = catch_unwind_or_abort(Err::<i32, u8>(1)).unwrap_err();
    assert_eq!(plan, Disposal { value: 1, on_fault: OnFault::Abort });
    assert_eq!(settle(plan.on_fault, Finalized::Raised(2u8)), Settled::Abort(2));

    let plan = catch_unwind_or_forget(Err::<i32, u8>(1)).unwrap_err();
    assert_eq!(plan, Disposal { value: 1, on_fault: OnFault::Forget });
    assert_eq!(settle(plan.on_fault, Finalized::Raised(2u8)), Settled::Leak(2));
}

#[test]
fn inspected_drop_or_forget_leaks_fault() {
    let mut inspections: u32 = 0;
    let mut inspect = |p: &u8| {
        inspections += 1;
        assert_eq!(*p, 9);
        Disposition::DropOrForget
    };
    let carrier = catch_unwind_wrapped(Err::<(), u8>(9)).unwrap_err();
    let chosen = inspect(carrier.get());
    let verdict = dispose_as(carrier.into_inner(), Some(chosen));
    assert_eq!(inspections, 1);
    match verdict {
        Verdict::Dispose(d) => {
            assert_eq!(d.value, 9);
            assert_eq!(settle(d.on_fault, Finalized::Raised(10u8)), Settled::Leak(10));
        }
        _ => panic!("expected a guarded disposal"),
    }
}

#[test]
fn resume_unwind_keeps_payload() {
    assert_eq!(dispose_as("boom", Some(Disposition::ResumeUnwind)), Verdict::Resume("boom"));
}

#[test]
fn each_disposition_gives_its_verdict() {
    assert_eq!(
        dispose_as(5u8, Some(Disposition::DropOrAbort)),
        Verdict::Dispose(Disposal { value: 5, on_fault: OnFault::Abort })
    );
    assert_eq!(
        dispose_as(5u8, Some(Disposition::DropOrForget)),
        Verdict::Dispose(Disposal { value: 5, on_fault: OnFault::Forget })
    );
    assert_eq!(dispose_as(5u8, Some(Disposition::DropOrUnwind)), Verdict::DropUnguarded(5));
}

#[test]
fn failed_inspection_is_fatal() {
    assert_eq!(dispose_as(5u8, None), Verdict::Abort(5));
}

#[test]
fn dropped_carrier_disposes_as_drop_or_abort() {
    let mut carrier = Payload::new(7u8);
    let owed = carrier.release();
    assert_eq!(owed, Some(Payload::new(7u8).drop_or_abort()));
    assert_eq!(owed, Some(Disposal { value: 7, on_fault: OnFault::Abort }));
}

#[test]
fn carrier_is_consumed_once() {
    let mut carrier = Payload::new(String::from("p"));
    assert!(carrier.is_present());
    assert!(carrier.release().is_some());
    assert!(!carrier.is_present());
    assert_eq!(carrier.release(), None);
}

#[test]
fn payload_chain_forget_leaks_abort_terminates() {
    let p1 = drop_or_forget("P1");
    assert_eq!(p1.value, "P1");
    assert_eq!(settle(p1.on_fault, Finalized::Raised("P2")), Settled::Leak("P2"));
    let p1 = drop_or_abort("P1");
    assert_eq!(settle(p1.on_fault, Finalized::Raised("P2")), Settled::Abort("P2"));
}

#[test]
fn carrier_accessors() {
    let mut carrier = Payload::new(3u32);
    assert_eq!(*carrier.get(), 3);
    *carrier.get_mut() += 4;
    assert_eq!(*carrier.get(), 7);
    assert_eq!(carrier.into_inner(), 7);
    let forget = Payload::new(1u8).drop_or_forget();
    assert_eq!(forget, Disposal { value: 1, on_fault: OnFault::Forget });
}

#[test]
fn drop_or_else_maps_fault() {
    assert_eq!(drop_or_else(Finalized::<u8>::Completed, |p: u8| p as u32 * 2), Ok(()));
    assert_eq!(drop_or_else(Finalized::Raised(3u8), |p: u8| p as u32 * 2), Err(6));
}

#[test]
fn catch_unwind_with_inspects_once() {
    let mut calls: u32 = 0;
    let r = catch_unwind_with(Err::<(), u8>(4), |p: &u8| {
        calls += 1;
        assert_eq!(*p, 4);
        Some(Disposition::DropOrForget)
    });
    assert_eq!(calls, 1);
    assert_eq!(r, Err(Verdict::Dispose(Disposal { value: 4, on_fault: OnFault::Forget })));
    match r {
        Err(Verdict::Dispose(d)) => {
            assert_eq!(settle(d.on_fault, Finalized::Raised(5u8)), Settled::Leak(5))
        }
        _ => unreachable!(),
    }
}

#[test]
fn catch_unwind_with_passes_result_without_inspecting() {
    let mut calls: u32 = 0;
    let r = catch_unwind_with(Ok::<&str, u8>("success"), |_p: &u8| {
        calls += 1;
        Some(Disposition::DropOrAbort)
    });
    assert_eq!(calls, 0);
    assert_eq!(r, Ok("success"));
}

#[test]
fn catch_unwind_with_resumes_same_payload() {
    let r = catch_unwind_with(Err::<(), &str>("original"), |_p: &&str| Some(Disposition::ResumeUnwind));
    assert_eq!(r, Err(Verdict::Resume("original")));
    let r = catch_unwind_with(Err::<(), &str>("original"), |_p: &&str| None);
    assert_eq!(r, Err(Verdict::Abort("original")));
}
