use primer::webserver::http::{handle_connection, response, starts_with};
use primer::webserver::model::{Action, Message, WorkerState};
use primer::webserver::pool::{teardown_plan, TeardownStep, ThreadPool};
use primer::webserver::worker::{Handle, Worker};

fn sorted(jobs: &Vec<u64>) -> Vec<u64> {
    let mut jobs = jobs.clone();
    jobs.sort();
    jobs
}

#[test]
fn a_fresh_pool_has_idle_workers_and_an_empty_queue() {
    let pool = ThreadPool::new(4);
    assert_eq!(pool.size(), 4);
    assert_eq!(pool.pending(), 0);
    assert!(pool.is_open());
    for worker in 0..4 {
        assert_eq!(pool.state(worker), Some(WorkerState::Idle));
    }
    assert_eq!(pool.state(4), None);
    assert_eq!(pool.terminates_sent(), 0);
    assert_eq!(pool.joined(), 0);
}

#[test]
fn as_many_jobs_as_workers_all_run_at_once() {
    for size in 1..6usize {
        let mut pool = ThreadPool::new(size);
        for job in 0..size {
            pool.execute(100 + job as u64);
        }
        for worker in 0..size {
            assert_eq!(pool.receive(worker), Some(Action::Run(100 + worker as u64)));
        }
        for worker in 0..size {
            assert_eq!(pool.state(worker), Some(WorkerState::Executing(100 + worker as u64)));
        }
        assert!(pool.finished().is_empty());
        assert_eq!(pool.pending(), 0);
    }
}

#[test]
fn every_job_runs_exactly_once_whatever_the_number_of_workers() {
    for size in 1..5usize {
        for count in [0u64, 1, 3, 4, 5, 17] {
            let mut pool = ThreadPool::new(size);
            for job in 0..count {
                pool.execute(job);
            }
            pool.shutdown();
            assert_eq!(sorted(pool.finished()), (0..count).collect::<Vec<u64>>());
            assert_eq!(pool.submitted(), &(0..count).collect::<Vec<u64>>());
        }
    }
}

#[test]
fn a_job_submitted_twice_runs_twice() {
    let mut pool = ThreadPool::new(2);
    pool.execute(7);
    pool.execute(7);
    pool.execute(8);
    pool.shutdown();
    assert_eq!(sorted(pool.finished()), vec![7, 7, 8]);
}

#[test]
fn teardown_returns_only_when_all_is_done() {
    let mut pool = ThreadPool::new(3);
    for job in 0..10 {
        pool.execute(job);
    }
    assert_eq!(pool.receive(1), Some(Action::Run(0)));
    assert_eq!(pool.receive(2), Some(Action::Run(1)));
    assert_eq!(pool.finish(2), Some(1));
    pool.shutdown();
    assert_eq!(pool.finished().len(), 10);
    assert_eq!(pool.finished()[0], 1);
    assert_eq!(pool.started().len(), 10);
    assert_eq!(pool.pending(), 0);
    assert_eq!(pool.joined(), 3);
    assert_eq!(pool.terminates_sent(), 3);
    assert!(!pool.is_open());
    for worker in 0..3 {
        assert_eq!(pool.state(worker), Some(WorkerState::Stopped));
    }
    let record = pool.finished().clone();
    pool.shutdown();
    assert_eq!(pool.finished(), &record);
    assert_eq!(pool.receive(0), None);
    assert_eq!(pool.finish(0), None);
    assert_eq!(pool.join(0), None);
    assert!(!pool.send_terminate());
}

#[test]
fn teardown_ends_from_every_state_of_the_workers() {
    for size in 1..5usize {
        for busy in 0..=size {
            let mut pool = ThreadPool::new(size);
            for job in 0..(2 * size as u64) {
                pool.execute(job);
            }
            for worker in 0..busy {
                assert!(pool.receive(worker).is_some());
            }
            pool.shutdown();
            assert_eq!(pool.joined(), size);
            assert_eq!(sorted(pool.finished()), (0..2 * size as u64).collect::<Vec<u64>>());
        }
    }
}

#[test]
fn broadcast_then_join_ends_where_a_slow_worker_is_first_in_line() {
    let mut pool = ThreadPool::new(2);
    pool.execute(1);
    assert_eq!(pool.receive(0), Some(Action::Run(1)));
    assert!(pool.send_terminate());
    assert!(pool.send_terminate());
    assert!(!pool.send_terminate());
    assert_eq!(pool.receive(1), Some(Action::Exit));
    assert_eq!(pool.join(0), None);
    assert_eq!(pool.finish(0), Some(1));
    assert_eq!(pool.receive(0), Some(Action::Exit));
    assert_eq!(pool.join(0), Some(Handle { worker: 0 }));
    assert_eq!(pool.join(1), Some(Handle { worker: 1 }));
    assert_eq!(pool.joined(), 2);
    assert_eq!(pool.finished(), &vec![1]);
}

#[test]
fn terminate_and_join_worker_by_worker_blocks_on_a_slow_first_worker() {
    let mut pool = ThreadPool::new(2);
    pool.execute(1);
    assert_eq!(pool.receive(0), Some(Action::Run(1)));
    assert!(pool.send_terminate());
    assert_eq!(pool.receive(1), Some(Action::Exit));
    assert_eq!(pool.finish(0), Some(1));
    assert_eq!(pool.state(0), Some(WorkerState::Idle));
    assert_eq!(pool.state(1), Some(WorkerState::Stopped));
    assert_eq!(pool.pending(), 0);
    for _ in 0..3 {
        assert_eq!(pool.receive(0), None);
        assert_eq!(pool.finish(0), None);
        assert_eq!(pool.receive(1), None);
        assert_eq!(pool.finish(1), None);
        assert_eq!(pool.join(0), None);
        assert_eq!(pool.join(1), None);
    }
    assert_eq!(pool.joined(), 0);
}

#[test]
fn a_worker_runs_one_job_at_a_time() {
    let mut pool = ThreadPool::new(1);
    pool.execute(1);
    pool.execute(2);
    assert_eq!(pool.receive(0), Some(Action::Run(1)));
    assert_eq!(pool.receive(0), None);
    assert_eq!(pool.state(0), Some(WorkerState::Executing(1)));
    assert_eq!(pool.pending(), 1);
    assert_eq!(pool.finish(0), Some(1));
    assert_eq!(pool.finish(0), None);
    assert_eq!(pool.receive(0), Some(Action::Run(2)));
    assert_eq!(pool.finish(0), Some(2));
    assert_eq!(pool.receive(0), None);
    pool.shutdown();
    assert_eq!(pool.started(), &vec![1, 2]);
    assert_eq!(pool.finished(), &vec![1, 2]);
}

#[test]
fn slow_job_does_not_hold_back_fast_job() {
    let a = 1;
    let b = 2;
    let mut pool = ThreadPool::new(2);
    pool.execute(a);
    pool.execute(b);
    assert_eq!(pool.receive(0), Some(Action::Run(a)));
    assert_eq!(pool.receive(1), Some(Action::Run(b)));
    assert_eq!(pool.finish(1), Some(b));
    assert_eq!(pool.finished(), &vec![b]);
    assert_eq!(pool.state(0), Some(WorkerState::Executing(a)));
    pool.shutdown();
    assert_eq!(pool.finished(), &vec![b, a]);
    assert_eq!(pool.joined(), 2);
}

#[test]
fn jobs_start_in_the_order_of_submission() {
    let mut pool = ThreadPool::new(3);
    for job in [5, 3, 9, 1, 7] {
        pool.execute(job);
    }
    assert_eq!(pool.receive(2), Some(Action::Run(5)));
    assert_eq!(pool.receive(0), Some(Action::Run(3)));
    assert_eq!(pool.finish(0), Some(3));
    assert_eq!(pool.receive(0), Some(Action::Run(9)));
    assert_eq!(pool.receive(1), Some(Action::Run(1)));
    assert_eq!(pool.started(), &vec![5, 3, 9, 1]);
    assert_eq!(pool.pending(), 1);
    pool.shutdown();
    assert_eq!(pool.started(), &vec![5, 3, 9, 1, 7]);
}

#[test]
fn steps_that_cannot_happen_change_nothing() {
    let mut pool = ThreadPool::new(2);
    assert_eq!(pool.receive(0), None);
    assert_eq!(pool.receive(2), None);
    assert_eq!(pool.finish(0), None);
    assert_eq!(pool.finish(2), None);
    assert_eq!(pool.join(0), None);
    assert_eq!(pool.join(1), None);
    assert_eq!(pool.join(2), None);
    assert!(pool.is_open());
    assert_eq!(pool.pending(), 0);
    assert_eq!(pool.state(0), Some(WorkerState::Idle));
    assert_eq!(pool.state(1), Some(WorkerState::Idle));
}

#[test]
fn workers_are_joined_by_ascending_id_each_once() {
    let mut pool = ThreadPool::new(2);
    assert!(pool.send_terminate());
    assert!(pool.send_terminate());
    assert_eq!(pool.receive(1), Some(Action::Exit));
    assert_eq!(pool.join(1), None);
    assert_eq!(pool.join(0), None);
    assert_eq!(pool.receive(0), Some(Action::Exit));
    assert_eq!(pool.join(1), None);
    assert_eq!(pool.join(0), Some(Handle { worker: 0 }));
    assert_eq!(pool.join(0), None);
    assert_eq!(pool.join(1), Some(Handle { worker: 1 }));
    assert_eq!(pool.join(1), None);
}

#[test]
fn a_worker_goes_from_waiting_to_work_and_back_until_told_to_stop() {
    let mut worker = Worker::new(3);
    assert_eq!(worker.id(), 3);
    assert_eq!(worker.state(), WorkerState::Idle);
    assert!(worker.is_idle());
    assert_eq!(worker.receive(Message::NewJob(11)), Action::Run(11));
    assert_eq!(worker.state(), WorkerState::Executing(11));
    assert!(!worker.is_idle());
    assert_eq!(worker.finish(), 11);
    assert_eq!(worker.state(), WorkerState::Idle);
    assert_eq!(worker.receive(Message::Terminate), Action::Exit);
    assert_eq!(worker.state(), WorkerState::Stopped);
    assert!(worker.is_stopped());
}

#[test]
fn the_handle_of_a_worker_is_taken_once() {
    let mut worker = Worker::new(3);
    assert_eq!(worker.take_thread(), Some(Handle { worker: 3 }));
    assert_eq!(worker.take_thread(), None);
    assert_eq!(worker.take_thread(), None);
}

#[test]
fn a_request_for_the_root_gets_the_hello_page() {
    let mut buffer = [0u8; 1024];
    let request = b"GET / HTTP/1.1\r\nHost: localhost\r\n\r\n";
    buffer[..request.len()].copy_from_slice(request);
    let plan = handle_connection(&buffer);
    assert_eq!(plan.delay_secs, 0);
    assert_eq!(plan.status_line, "HTTP/1.1 200 OK\r\n\r\n");
    assert_eq!(plan.filename, "hello.html");
}

#[test]
fn a_request_for_sleep_gets_the_hello_page_after_five_seconds() {
    let plan = handle_connection(b"GET /sleep HTTP/1.1\r\n\r\n");
    assert_eq!(plan.delay_secs, 5);
    assert_eq!(plan.status_line, "HTTP/1.1 200 OK\r\n\r\n");
    assert_eq!(plan.filename, "hello.html");
}

#[test]
fn any_other_request_gets_the_page_not_found() {
    for request in [
        &b"GET /other HTTP/1.1\r\n"[..],
        &b"GET / HTTP/1.1"[..],
        &b"GET / HTTP/1.0\r\n"[..],
        &b"POST / HTTP/1.1\r\n"[..],
        &b" GET / HTTP/1.1\r\n"[..],
        &b""[..],
        &[0u8; 1024][..],
    ] {
        let plan = handle_connection(request);
        assert_eq!(plan.delay_secs, 0);
        assert_eq!(plan.status_line, "HTTP/1.1 404 NOT FOUND\r\n\r\n");
        assert_eq!(plan.filename, "404.html");
    }
}

#[test]
fn a_response_is_the_status_line_and_then_the_page() {
    assert_eq!(
        response("HTTP/1.1 200 OK\r\n\r\n", "<h1>Hello!</h1>"),
        "HTTP/1.1 200 OK\r\n\r\n<h1>Hello!</h1>"
    );
    assert_eq!(response("", ""), "");
}

#[test]
fn starts_with_compares_the_first_bytes() {
    assert!(starts_with(b"abc", b""));
    assert!(starts_with(b"abc", b"ab"));
    assert!(starts_with(b"abc", b"abc"));
    assert!(!starts_with(b"abc", b"abcd"));
    assert!(!starts_with(b"abc", b"b"));
    assert!(starts_with(b"", b""));
}

#[test]
fn teardown_sends_every_terminate_before_the_first_join() {
    assert_eq!(teardown_plan(0), vec![]);
    assert_eq!(teardown_plan(1), vec![TeardownStep::SendTerminate, TeardownStep::Join(0)]);
    assert_eq!(
        teardown_plan(3),
        vec![
            TeardownStep::SendTerminate,
            TeardownStep::SendTerminate,
            TeardownStep::SendTerminate,
            TeardownStep::Join(0),
            TeardownStep::Join(1),
            TeardownStep::Join(2),
        ]
    );
}

#[test]
fn the_plan_tears_down_a_pool_whose_workers_take_turns() {
    let mut pool = ThreadPool::new(3);
    for job in 0..7 {
        pool.execute(job);
    }
    for step in teardown_plan(pool.size()) {
        match step {
            TeardownStep::SendTerminate => assert!(pool.send_terminate()),
            TeardownStep::Join(id) => {
                let mut turn = 0;
                while pool.state(id) != Some(WorkerState::Stopped) {
                    let worker = (id + turn) % 3;
                    if pool.finish(worker).is_none() {
                        pool.receive(worker);
                    }
                    turn += 1;
                    assert!(turn < 100);
                }
                assert_eq!(pool.join(id), Some(Handle { worker: id }));
            }
        }
    }
    assert_eq!(pool.joined(), 3);
    assert_eq!(sorted(pool.finished()), (0..7).collect::<Vec<u64>>());
}
