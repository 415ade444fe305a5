use ws_tunnel::command::ControllerCommand;
use ws_tunnel::controller::CONTROLLER_COMMANDER_CHAN_LENGTH;
use ws_tunnel::id::ConnectionId;
use ws_tunnel::pipe::{ConnectionPipe, Direction, Intake, Outlet};
use ws_tunnel::queue::{BoundedQueue, RecvError, SendError};
use ws_tunnel::splice::{Relay, SOCKET_QUEUE_LENGTH};

#[test]
fn queue_bounds_are_the_configured_ones() {
    assert_eq!(SOCKET_QUEUE_LENGTH, 32);
    assert_eq!(CONTROLLER_COMMANDER_CHAN_LENGTH, 10);
}

#[test]
fn new_queue_is_open_and_empty() {
    let queue: BoundedQueue<u32> = BoundedQueue::new(3);
    assert_eq!(queue.len(), 0);
    assert_eq!(queue.capacity(), 3);
    assert!(queue.is_empty());
    assert!(!queue.is_full());
    assert!(!queue.is_closed());
}

#[test]
fn queue_hands_out_in_the_order_of_arrival() {
    let mut queue: BoundedQueue<u32> = BoundedQueue::new(8);
    for n in [5, 3, 9, 3, 1] {
        assert_eq!(queue.push(n), Ok(()));
    }
    assert_eq!(queue.len(), 5);
    let mut out = Vec::new();
    while let Ok(n) = queue.pop() {
        out.push(n);
    }
    assert_eq!(out, vec![5, 3, 9, 3, 1]);
    assert_eq!(queue.pop(), Err(RecvError::Empty));
}

#[test]
fn queue_keeps_order_when_pushes_and_pops_alternate() {
    let mut queue: BoundedQueue<u32> = BoundedQueue::new(2);
    let mut out = Vec::new();
    let mut next = 0;
    for round in 0..50u32 {
        while queue.push(next).is_ok() {
            next += 1;
        }
        assert!(queue.is_full());
        let take = 1 + (round % 2) as usize;
        for _ in 0..take {
            out.push(queue.pop().unwrap());
        }
    }
    let expected: Vec<u32> = (0..out.len() as u32).collect();
    assert_eq!(out, expected);
}

#[test]
fn full_queue_gives_the_item_back() {
    let mut queue: BoundedQueue<u32> = BoundedQueue::new(2);
    assert_eq!(queue.push(1), Ok(()));
    assert_eq!(queue.push(2), Ok(()));
    assert!(queue.is_full());
    assert_eq!(queue.push(3), Err(SendError::Full(3)));
    assert_eq!(queue.len(), 2);
    assert_eq!(queue.pop(), Ok(1));
    assert_eq!(queue.push(3), Ok(()));
    assert_eq!(queue.pop(), Ok(2));
    assert_eq!(queue.pop(), Ok(3));
}

#[test]
fn queue_never_exceeds_its_capacity() {
    let mut queue: BoundedQueue<usize> = BoundedQueue::new(SOCKET_QUEUE_LENGTH);
    for n in 0..100 {
        let _ = queue.push(n);
        assert!(queue.len() <= queue.capacity());
    }
    assert_eq!(queue.len(), 32);
}

#[test]
fn closed_queue_takes_nothing_in_and_can_be_drained() {
    let mut queue: BoundedQueue<u32> = BoundedQueue::new(4);
    assert_eq!(queue.push(1), Ok(()));
    assert_eq!(queue.push(2), Ok(()));
    queue.close();
    assert!(queue.is_closed());
    assert_eq!(queue.push(3), Err(SendError::Closed(3)));
    assert_eq!(queue.pop(), Ok(1));
    assert_eq!(queue.pop(), Ok(2));
    assert_eq!(queue.pop(), Err(RecvError::Closed));
    assert_eq!(queue.pop(), Err(RecvError::Closed));
}

#[test]
fn closed_and_full_queue_reports_closed() {
    let mut queue: BoundedQueue<u32> = BoundedQueue::new(1);
    assert_eq!(queue.push(1), Ok(()));
    queue.close();
    assert_eq!(queue.push(2), Err(SendError::Closed(2)));
}

#[test]
fn command_queue_holds_ten_commands_in_order() {
    let mut queue: BoundedQueue<ControllerCommand> =
        BoundedQueue::new(CONTROLLER_COMMANDER_CHAN_LENGTH);
    for n in 0..10u128 {
        let command = ControllerCommand::NewConnection(ConnectionId::from_u128(n));
        assert_eq!(queue.push(command), Ok(()));
    }
    let eleventh = ControllerCommand::NewConnection(ConnectionId::from_u128(10));
    assert_eq!(queue.push(eleventh), Err(SendError::Full(eleventh)));
    for n in 0..10u128 {
        assert_eq!(
            queue.pop(),
            Ok(ControllerCommand::NewConnection(ConnectionId::from_u128(n)))
        );
    }
}

#[test]
fn new_pipe_has_two_open_queues_of_thirty_two() {
    let pipe = ConnectionPipe::new();
    assert_eq!(pipe.websocket_data.capacity(), 32);
    assert_eq!(pipe.socket_data.capacity(), 32);
    assert!(pipe.websocket_data.is_empty());
    assert!(pipe.socket_data.is_empty());
    assert!(!pipe.websocket_data.is_closed());
    assert!(!pipe.socket_data.is_closed());
}

#[test]
fn pipe_carries_chunks_in_order_in_each_direction() {
    let mut pipe = ConnectionPipe::new();
    assert_eq!(
        pipe.offer(Direction::ToSocket, Relay::Forward(b"he".to_vec())),
        Intake::Queued
    );
    assert_eq!(
        pipe.offer(Direction::ToWebSocket, Relay::Forward(b"wor".to_vec())),
        Intake::Queued
    );
    assert_eq!(
        pipe.offer(Direction::ToSocket, Relay::Forward(b"llo".to_vec())),
        Intake::Queued
    );
    assert_eq!(
        pipe.offer(Direction::ToWebSocket, Relay::Forward(b"ld".to_vec())),
        Intake::Queued
    );
    assert_eq!(pipe.take(Direction::ToSocket), Outlet::Chunk(b"he".to_vec()));
    assert_eq!(pipe.take(Direction::ToSocket), Outlet::Chunk(b"llo".to_vec()));
    assert_eq!(pipe.take(Direction::ToSocket), Outlet::Idle);
    assert_eq!(
        pipe.take(Direction::ToWebSocket),
        Outlet::Chunk(b"wor".to_vec())
    );
    assert_eq!(
        pipe.take(Direction::ToWebSocket),
        Outlet::Chunk(b"ld".to_vec())
    );
    assert_eq!(pipe.take(Direction::ToWebSocket), Outlet::Idle);
}

#[test]
fn pipe_delivers_exactly_the_bytes_written() {
    let mut pipe = ConnectionPipe::new();
    let mut written: Vec<u8> = Vec::new();
    let mut delivered: Vec<u8> = Vec::new();
    let mut seed: u32 = 12345;
    for round in 0..200u32 {
        seed = seed.wrapping_mul(1103515245).wrapping_add(12345);
        let len = (seed >> 16) as usize % 50;
        let chunk: Vec<u8> = (0..len).map(|i| (round as usize + i) as u8).collect();
        match pipe.offer(Direction::ToWebSocket, Relay::Forward(chunk.clone())) {
            Intake::Queued => written.extend_from_slice(&chunk),
            Intake::Blocked(back) => {
                assert_eq!(back, chunk);
                assert!(pipe.socket_data.is_full());
            }
            other => panic!("unexpected intake {:?}", other),
        }
        if seed % 3 == 0 {
            if let Outlet::Chunk(out) = pipe.take(Direction::ToWebSocket) {
                delivered.extend_from_slice(&out);
            }
        }
        assert!(written.starts_with(&delivered));
        assert!(pipe.socket_data.len() <= 32);
    }
    while let Outlet::Chunk(out) = pipe.take(Direction::ToWebSocket) {
        delivered.extend_from_slice(&out);
    }
    assert_eq!(delivered, written);
}

#[test]
fn full_pipe_blocks_the_reader_until_the_writer_takes() {
    let mut pipe = ConnectionPipe::new();
    for n in 0..32u8 {
        assert_eq!(
            pipe.offer(Direction::ToSocket, Relay::Forward(vec![n])),
            Intake::Queued
        );
    }
    assert_eq!(
        pipe.offer(Direction::ToSocket, Relay::Forward(vec![32])),
        Intake::Blocked(vec![32])
    );
    assert_eq!(pipe.websocket_data.len(), 32);
    assert_eq!(pipe.take(Direction::ToSocket), Outlet::Chunk(vec![0]));
    assert_eq!(
        pipe.offer(Direction::ToSocket, Relay::Forward(vec![32])),
        Intake::Queued
    );
    assert!(pipe.socket_data.is_empty());
}

#[test]
fn empty_chunk_is_carried_like_any_other() {
    let mut pipe = ConnectionPipe::new();
    assert_eq!(
        pipe.offer(Direction::ToSocket, Relay::Forward(Vec::new())),
        Intake::Queued
    );
    assert_eq!(pipe.websocket_data.len(), 1);
    assert_eq!(pipe.take(Direction::ToSocket), Outlet::Chunk(Vec::new()));
}

#[test]
fn skipped_frame_leaves_the_pipe_alone() {
    let mut pipe = ConnectionPipe::new();
    assert_eq!(pipe.offer(Direction::ToSocket, Relay::Skip), Intake::Skipped);
    assert!(pipe.websocket_data.is_empty());
    assert!(!pipe.websocket_data.is_closed());
    assert!(!pipe.socket_data.is_closed());
}

#[test]
fn finished_flow_closes_the_pipe_both_ways() {
    let mut pipe = ConnectionPipe::new();
    assert_eq!(
        pipe.offer(Direction::ToWebSocket, Relay::Forward(vec![1])),
        Intake::Queued
    );
    assert_eq!(pipe.offer(Direction::ToSocket, Relay::Finish), Intake::Finished);
    assert!(pipe.websocket_data.is_closed());
    assert!(pipe.socket_data.is_closed());
    assert_eq!(pipe.take(Direction::ToSocket), Outlet::Finished);
    assert_eq!(
        pipe.offer(Direction::ToWebSocket, Relay::Forward(vec![2])),
        Intake::Finished
    );
    assert_eq!(pipe.take(Direction::ToWebSocket), Outlet::Chunk(vec![1]));
    assert_eq!(pipe.take(Direction::ToWebSocket), Outlet::Finished);
}

#[test]
fn closing_one_queue_ends_the_other_side_too() {
    let mut pipe = ConnectionPipe::new();
    pipe.websocket_data.close();
    assert!(!pipe.socket_data.is_closed());
    assert_eq!(pipe.take(Direction::ToSocket), Outlet::Finished);
    assert!(pipe.socket_data.is_closed());
}

#[test]
fn closed_pipe_stays_closed() {
    let mut pipe = ConnectionPipe::new();
    pipe.close();
    pipe.close();
    assert!(pipe.websocket_data.is_closed());
    assert!(pipe.socket_data.is_closed());
    assert_eq!(pipe.take(Direction::ToSocket), Outlet::Finished);
    assert_eq!(pipe.take(Direction::ToWebSocket), Outlet::Finished);
}
