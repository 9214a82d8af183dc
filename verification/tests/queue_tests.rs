use diffusion_server::errors::DiffusionError;
use diffusion_server::queue::{JobStatus, MemoryQueue};
use diffusion_server::worker::complete_job;

#[test]
fn capacity_rejects_beyond_max() {
    let mut q: MemoryQueue<u32, u32> = MemoryQueue::new(2);
    let r1 = q.enqueue(1);
    let r2 = q.enqueue(2);
    assert!(r1.is_ok());
    assert!(r2.is_ok());
    assert_eq!(q.queue_length(), 2);
    let r3 = q.enqueue(3);
    assert!(matches!(r3, Err(DiffusionError::QueueFull)));
    let r4 = q.enqueue(4);
    assert!(matches!(r4, Err(DiffusionError::QueueFull)));
    assert_eq!(q.queue_length(), 2);
}

#[test]
fn fifo_returns_each_job_once_in_order() {
    let mut q: MemoryQueue<u32, u32> = MemoryQueue::new(10);
    let (id_a, _rx_a) = q.enqueue(10).unwrap();
    let (id_b, _rx_b) = q.enqueue(20).unwrap();
    let (id_c, _rx_c) = q.enqueue(30).unwrap();
    assert!(id_a < id_b && id_b < id_c);

    let j1 = q.dequeue().unwrap();
    let j2 = q.dequeue().unwrap();
    let j3 = q.dequeue().unwrap();
    assert_eq!(j1.id, id_a);
    assert_eq!(j1.request, 10);
    assert_eq!(j2.id, id_b);
    assert_eq!(j2.request, 20);
    assert_eq!(j3.id, id_c);
    assert_eq!(j3.request, 30);
    assert!(q.dequeue().is_none());
}

#[test]
fn dequeue_on_empty_returns_none() {
    let mut q: MemoryQueue<u32, u32> = MemoryQueue::new(4);
    assert!(q.dequeue().is_none());
    assert_eq!(q.queue_length(), 0);
}

#[test]
fn status_follows_the_lifecycle() {
    let mut q: MemoryQueue<u32, u32> = MemoryQueue::new(4);
    let (id, mut rx) = q.enqueue(7).unwrap();
    assert!(matches!(q.get_status(id), Some(JobStatus::Queued)));

    let job = q.dequeue().unwrap();
    assert_eq!(job.id, id);
    assert!(matches!(q.get_status(id), Some(JobStatus::Processing)));

    let delivered = complete_job(&mut q, job.id, job.response_tx, Ok(99u32));
    assert!(delivered);
    assert!(matches!(q.get_status(id), Some(JobStatus::Completed)));
    assert_eq!(rx.try_recv().unwrap().unwrap(), 99);
}

#[test]
fn failed_outcome_marks_job_failed() {
    let mut q: MemoryQueue<u32, u32> = MemoryQueue::new(4);
    let (id, mut rx) = q.enqueue(7).unwrap();
    let job = q.dequeue().unwrap();
    let delivered = complete_job(
        &mut q,
        job.id,
        job.response_tx,
        Err(DiffusionError::Inference("boom".to_string())),
    );
    assert!(delivered);
    assert!(matches!(q.get_status(id), Some(JobStatus::Failed)));
    let received = rx.try_recv().unwrap();
    assert!(matches!(received, Err(DiffusionError::Inference(_))));
}

#[test]
fn get_status_is_idempotent_on_terminal_jobs() {
    let mut q: MemoryQueue<u32, u32> = MemoryQueue::new(4);
    let (id, _rx) = q.enqueue(7).unwrap();
    let job = q.dequeue().unwrap();
    complete_job(&mut q, job.id, job.response_tx, Ok(1u32));
    for _ in 0..5 {
        assert!(matches!(q.get_status(id), Some(JobStatus::Completed)));
    }
}

#[test]
fn unknown_id_is_not_found() {
    let mut q: MemoryQueue<u32, u32> = MemoryQueue::new(4);
    assert!(q.get_status(12345).is_none());
    let (id, _rx) = q.enqueue(7).unwrap();
    assert!(q.get_status(id + 1).is_none());
}

#[test]
fn capacity_one_scenario() {
    let mut q: MemoryQueue<u32, u32> = MemoryQueue::new(1);
    let (id_a, _rx_a) = q.enqueue(100).unwrap();
    assert!(matches!(q.get_status(id_a), Some(JobStatus::Queued)));

    let rejected = q.enqueue(200);
    assert!(matches!(rejected, Err(DiffusionError::QueueFull)));

    let job_a = q.dequeue().unwrap();
    assert_eq!(job_a.id, id_a);
    assert!(matches!(q.get_status(id_a), Some(JobStatus::Processing)));

    let accepted = q.enqueue(200);
    assert!(accepted.is_ok());
    assert_eq!(q.queue_length(), 1);
}

#[test]
fn dropped_receiver_degrades_send_to_noop() {
    let mut q: MemoryQueue<u32, u32> = MemoryQueue::new(4);
    let (id, rx) = q.enqueue(7).unwrap();
    drop(rx);
    let job = q.dequeue().unwrap();
    let delivered = complete_job(&mut q, job.id, job.response_tx, Ok(5u32));
    assert!(!delivered);
    assert!(matches!(q.get_status(id), Some(JobStatus::Completed)));
}
