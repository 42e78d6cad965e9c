use lib::dispatcher::{
    ChannelDispatcher, DispatchPriority, Dispatcher, RunOnDemandDispatcher, SendDispatcher,
};
use std::cell::RefCell;
use std::rc::Rc;

type Job = Box<dyn FnOnce()>;

fn job(log: Rc<RefCell<Vec<&'static str>>>, tag: &'static str) -> Job {
    Box::new(move || log.borrow_mut().push(tag))
}

/// Runs jobs until none is left, releasing the dispatcher while each job runs
/// so that the job may queue more work.
fn drain(dispatcher: &Rc<RefCell<RunOnDemandDispatcher<Job>>>) -> usize {
    let mut fired = 0;
    loop {
        let item = dispatcher.borrow_mut().next_job();
        match item {
            Some(f) => {
                f();
                fired += 1;
            }
            None => break,
        }
    }
    fired
}

#[test]
fn run_on_demand_dispatcher_promotes_normal_followup_over_remaining_low() {
    let dispatcher: Rc<RefCell<RunOnDemandDispatcher<Job>>> =
        Rc::new(RefCell::new(RunOnDemandDispatcher::new()));
    let log: Rc<RefCell<Vec<&'static str>>> = Rc::new(RefCell::new(Vec::new()));

    let log_for_lo1 = Rc::clone(&log);
    let dispatcher_clone = Rc::clone(&dispatcher);
    let lo1: Job = Box::new(move || {
        log_for_lo1.borrow_mut().push("lo1");

        let log2 = Rc::clone(&log_for_lo1);
        dispatcher_clone
            .borrow_mut()
            .enqueue(DispatchPriority::Normal, Box::new(move || log2.borrow_mut().push("n_followup")));
    });

    dispatcher.borrow_mut().enqueue(DispatchPriority::Low, lo1);
    dispatcher.borrow_mut().enqueue(DispatchPriority::Low, job(Rc::clone(&log), "lo2"));

    drain(&dispatcher);
    assert_eq!(*log.borrow(), vec!["lo1", "n_followup", "lo2"]);
}

#[test]
fn run_on_demand_runs_normal_before_low_in_fifo_order() {
    let mut d: RunOnDemandDispatcher<u32> = RunOnDemandDispatcher::new();
    assert!(d.enqueue(DispatchPriority::Low, 10));
    assert!(d.enqueue(DispatchPriority::Normal, 1));
    assert!(d.enqueue(DispatchPriority::Low, 11));
    assert!(d.enqueue(DispatchPriority::Normal, 2));
    assert_eq!(d.pending(), 4);
    let mut order = Vec::new();
    while let Some(j) = d.next_job() {
        order.push(j);
    }
    assert_eq!(order, vec![1, 2, 10, 11]);
    assert_eq!(d.pending(), 0);
}

#[test]
fn run_on_demand_drain_counts_jobs_it_ran() {
    let dispatcher: Rc<RefCell<RunOnDemandDispatcher<Job>>> =
        Rc::new(RefCell::new(RunOnDemandDispatcher::new()));
    let log: Rc<RefCell<Vec<&'static str>>> = Rc::new(RefCell::new(Vec::new()));
    dispatcher.borrow_mut().enqueue(DispatchPriority::Low, job(Rc::clone(&log), "a"));
    dispatcher.borrow_mut().enqueue(DispatchPriority::Normal, job(Rc::clone(&log), "b"));
    assert_eq!(dispatcher.borrow().pending(), 2);
    assert_eq!(drain(&dispatcher), 2);
    assert_eq!(*log.borrow(), vec!["b", "a"]);
    assert_eq!(dispatcher.borrow().pending(), 0);
}

#[test]
fn empty_dispatcher_has_no_next_job() {
    let mut d: RunOnDemandDispatcher<u8> = RunOnDemandDispatcher::new();
    assert_eq!(d.pending(), 0);
    assert!(d.next_job().is_none());
    let mut c: ChannelDispatcher<u8> = ChannelDispatcher::new();
    assert_eq!(c.pending(), 0);
    assert!(c.next_job().is_none());
}

#[test]
fn channel_dispatcher_orders_like_run_on_demand() {
    let mut c: ChannelDispatcher<&'static str> = ChannelDispatcher::new();
    assert!(c.enqueue_send(DispatchPriority::Low, "low1"));
    assert!(c.enqueue_send(DispatchPriority::Normal, "n1"));
    assert_eq!(c.pending(), 2);
    assert_eq!(c.next_job(), Some("n1"));
    assert!(c.enqueue_send(DispatchPriority::Normal, "n2"));
    assert_eq!(c.next_job(), Some("n2"));
    assert_eq!(c.next_job(), Some("low1"));
    assert_eq!(c.next_job(), None);
}
