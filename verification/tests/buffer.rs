use smoldesk::screen_capture::buffer::{DropMode, StreamBuffer};
use smoldesk::screen_capture::types::FrameData;

fn frame(size: usize, timestamp: u64, keyframe: bool) -> FrameData {
    FrameData {
        data: vec![0; size],
        timestamp,
        keyframe,
        width: 640,
        height: 480,
        format: "h264".to_string(),
    }
}

#[test]
fn test_buffer_basic_operations() {
    let mut buffer = StreamBuffer::new(5, 10, 30, DropMode::DropOldest);

    let frame1 = FrameData {
        data: vec![0; 100],
        timestamp: 1,
        keyframe: true,
        width: 640,
        height: 480,
        format: "h264".to_string(),
    };

    let frame2 = FrameData {
        data: vec![0; 200],
        timestamp: 2,
        keyframe: false,
        width: 640,
        height: 480,
        format: "h264".to_string(),
    };

    buffer.push_frame(frame1.clone()).unwrap();
    buffer.push_frame(frame2.clone()).unwrap();

    assert_eq!(buffer.len(), 2);
    assert_eq!(buffer.get_bytes(), 300);

    let retrieved = buffer.get_next_frame().unwrap();
    assert_eq!(retrieved.timestamp, frame1.timestamp);
    assert_eq!(buffer.len(), 1);

    buffer.clear();
    assert_eq!(buffer.len(), 0);
    assert_eq!(buffer.get_bytes(), 0);
    assert!(buffer.is_empty());
}

#[test]
fn test_buffer_overflow() {
    let mut buffer = StreamBuffer::new(3, 10, 30, DropMode::DropOldest);

    for i in 1..=5 {
        let frame = FrameData {
            data: vec![0; 100],
            timestamp: i,
            keyframe: i % 2 == 0,
            width: 640,
            height: 480,
            format: "h264".to_string(),
        };

        buffer.push_frame(frame).unwrap();
    }

    assert_eq!(buffer.len(), 3);

    let next_frame = buffer.get_next_frame().unwrap();
    assert_eq!(next_frame.timestamp, 3);
}

#[test]
fn drop_newest_keeps_the_oldest_frames() {
    let mut buffer = StreamBuffer::new(2, 10, 30, DropMode::DropNewest);
    for i in 1..=4 {
        buffer.push_frame(frame(10, i, false)).unwrap();
    }
    assert_eq!(buffer.len(), 2);
    assert_eq!(buffer.get_stats().frames_dropped, 2);
    assert_eq!(buffer.get_stats().frames_added, 4);
    assert_eq!(buffer.get_next_frame().unwrap().timestamp, 1);
    assert_eq!(buffer.get_next_frame().unwrap().timestamp, 2);
    assert!(buffer.get_next_frame().is_none());
}

#[test]
fn drop_non_keyframes_spares_keyframes() {
    let mut buffer = StreamBuffer::new(3, 10, 30, DropMode::DropNonKeyframes);
    buffer.push_frame(frame(10, 1, true)).unwrap();
    buffer.push_frame(frame(10, 2, false)).unwrap();
    buffer.push_frame(frame(10, 3, true)).unwrap();
    buffer.push_frame(frame(10, 4, true)).unwrap();
    let kept: Vec<u64> = buffer.drain().iter().map(|f| f.timestamp).collect();
    assert_eq!(kept, vec![1, 3, 4]);
}

#[test]
fn drop_non_keyframes_falls_back_to_the_oldest() {
    let mut buffer = StreamBuffer::new(2, 10, 30, DropMode::DropNonKeyframes);
    buffer.push_frame(frame(10, 1, true)).unwrap();
    buffer.push_frame(frame(10, 2, true)).unwrap();
    buffer.push_frame(frame(10, 3, false)).unwrap();
    let kept: Vec<u64> = buffer.drain().iter().map(|f| f.timestamp).collect();
    assert_eq!(kept, vec![2, 3]);
}

#[test]
fn drop_alternating_drops_the_oldest() {
    let mut buffer = StreamBuffer::new(2, 10, 30, DropMode::DropAlternating);
    for i in 1..=3 {
        buffer.push_frame(frame(10, i, false)).unwrap();
    }
    let kept: Vec<u64> = buffer.drain().iter().map(|f| f.timestamp).collect();
    assert_eq!(kept, vec![2, 3]);
}

#[test]
fn byte_limit_makes_room_too() {
    // 1 MiB limit: two frames of 600 KiB cannot both stay.
    let mut buffer = StreamBuffer::new(10, 1, 30, DropMode::DropOldest);
    buffer.push_frame(frame(600 * 1024, 1, true)).unwrap();
    buffer.push_frame(frame(600 * 1024, 2, true)).unwrap();
    assert_eq!(buffer.len(), 1);
    assert_eq!(buffer.get_bytes(), 600 * 1024);
    assert_eq!(buffer.peek_next_frame().unwrap().timestamp, 2);
    assert_eq!(buffer.get_max_bytes(), 1024 * 1024);
}

#[test]
fn every_pushed_frame_is_held_or_dropped() {
    let mut buffer = StreamBuffer::new(3, 10, 30, DropMode::DropOldest);
    for i in 0..10 {
        buffer.push_frame(frame(10, i, i % 3 == 0)).unwrap();
        let stats = buffer.get_stats();
        assert_eq!(stats.frames_added as usize, buffer.len() + stats.frames_dropped as usize);
        assert!(buffer.len() <= 3);
    }
}

#[test]
fn resize_drops_oldest_frames() {
    let mut buffer = StreamBuffer::new(5, 10, 30, DropMode::DropOldest);
    for i in 1..=5 {
        buffer.push_frame(frame(10, i, false)).unwrap();
    }
    buffer.resize(2, 10);
    assert_eq!(buffer.get_max_frames(), 2);
    assert_eq!(buffer.len(), 2);
    assert_eq!(buffer.get_stats().frames_dropped, 3);
    assert_eq!(buffer.get_next_frame().unwrap().timestamp, 4);
}

#[test]
fn drain_returns_frames_oldest_first() {
    let mut buffer = StreamBuffer::new(5, 10, 30, DropMode::DropOldest);
    for i in 1..=3 {
        buffer.push_frame(frame(10, i, false)).unwrap();
    }
    let frames = buffer.drain();
    assert_eq!(frames.iter().map(|f| f.timestamp).collect::<Vec<_>>(), vec![1, 2, 3]);
    assert!(buffer.is_empty());
    assert_eq!(buffer.get_stats().frames_read, 3);
    assert_eq!(buffer.get_stats().frame_count, 0);
    assert_eq!(buffer.get_bytes(), 0);
}

#[test]
fn settings_can_be_read_back() {
    let mut buffer = StreamBuffer::new(4, 2, 25, DropMode::DropOldest);
    assert_eq!(buffer.get_fps(), 25);
    assert_eq!(buffer.get_drop_mode(), DropMode::DropOldest);
    buffer.set_fps(60);
    buffer.set_drop_mode(DropMode::DropNewest);
    assert_eq!(buffer.get_fps(), 60);
    assert_eq!(buffer.get_drop_mode(), DropMode::DropNewest);
    assert!(buffer.can_accept(&frame(10, 1, false)));
}
