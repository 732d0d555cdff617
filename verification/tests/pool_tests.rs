use http_server::thread_pool::TaskQueue;

#[test]
fn every_submitted_task_is_delivered_exactly_once() {
    let mut queue: TaskQueue<u64> = TaskQueue::new();
    let submissions: u64 = 10;
    for task in 0..submissions {
        queue.enqueue(task);
    }
    let mut executions: u64 = 0;
    let mut seen = [false; 10];
    while let Some(task) = queue.dequeue() {
        assert!(!seen[task as usize], "task delivered twice");
        seen[task as usize] = true;
        executions += 1;
    }
    assert_eq!(executions, submissions);
    assert!(seen.iter().all(|s| *s), "a task was lost");
}

#[test]
fn delivery_follows_submission_order() {
    let mut queue: TaskQueue<u64> = TaskQueue::new();
    queue.enqueue(7);
    queue.enqueue(8);
    queue.enqueue(9);
    assert_eq!(queue.len(), 3);
    assert_eq!(queue.dequeue(), Some(7));
    assert_eq!(queue.dequeue(), Some(8));
    queue.enqueue(10);
    assert_eq!(queue.dequeue(), Some(9));
    assert_eq!(queue.dequeue(), Some(10));
    assert_eq!(queue.dequeue(), None);
    assert_eq!(queue.len(), 0);
}

#[test]
fn dequeue_on_empty_queue_is_none() {
    let mut queue: TaskQueue<String> = TaskQueue::new();
    assert_eq!(queue.dequeue(), None);
}
