use cyanotype::streams::nanos_to_duration;
use cyanotype::{
    broadcast_outcome, forwards_frame, prepare_data_packet, CyanotypeError, DataPacket,
    StreamChannel, CHANNEL_CAPACITY,
};
use std::time::Duration;

#[test]
fn nanos_become_durations() {
    assert_eq!(nanos_to_duration(Some(1_500)), Some(Duration::from_nanos(1_500)));
    assert_eq!(nanos_to_duration(Some(0)), Some(Duration::ZERO));
    assert_eq!(nanos_to_duration(None), None);
    assert_eq!(
        nanos_to_duration(Some(2_000_000_000)).map(|d| d.as_secs()),
        Some(2)
    );
}

#[test]
fn negative_nanos_are_read_as_unsigned() {
    assert_eq!(nanos_to_duration(Some(-1)), Some(Duration::from_nanos(u64::MAX)));
    assert_eq!(
        nanos_to_duration(Some(i64::MIN)),
        Some(Duration::from_nanos(1u64 << 63))
    );
}

#[test]
fn data_packet_keeps_payload_time_and_duration() {
    let p = DataPacket::new(vec![1, 2, 3], Some(40_000_000), Some(Duration::from_millis(20)));
    assert_eq!(p.data, vec![1, 2, 3]);
    assert_eq!(p.time, Some(Duration::from_millis(40)));
    assert_eq!(p.duration, Some(Duration::from_millis(20)));
}

#[test]
fn data_packets_are_prepared_only_for_subscribers() {
    assert!(prepare_data_packet(0, vec![9], Some(1), None).is_none());
    let p = prepare_data_packet(3, vec![9, 8], Some(1_000), None).unwrap();
    assert_eq!(p.data, vec![9, 8]);
    assert_eq!(p.time, Some(Duration::from_micros(1)));
    assert_eq!(p.duration, None);
    let q = prepare_data_packet(1, Vec::new(), None, Some(Duration::from_secs(1))).unwrap();
    assert!(q.data.is_empty());
    assert_eq!(q.time, None);
    assert_eq!(q.duration, Some(Duration::from_secs(1)));
}

#[test]
fn frames_are_forwarded_when_blocking_or_watched() {
    assert!(!forwards_frame(false, 0));
    assert!(forwards_frame(false, 1));
    assert!(forwards_frame(true, 0));
    assert!(forwards_frame(true, 5));
}

#[test]
fn channel_counts_its_subscribers() {
    let channel: StreamChannel<u32> = StreamChannel::new();
    assert_eq!(channel.receiver_count(), 0);
    assert_eq!(channel.sender().capacity(), CHANNEL_CAPACITY);
    assert_eq!(CHANNEL_CAPACITY, 64);
    let first = channel.subscribe();
    let second = channel.subscribe();
    assert_eq!(channel.receiver_count(), 2);
    drop(first);
    assert_eq!(channel.receiver_count(), 1);
    drop(second);
    assert_eq!(channel.receiver_count(), 0);
}

#[test]
fn subscribers_receive_what_is_broadcast() {
    let channel: StreamChannel<DataPacket> = StreamChannel::new();
    let mut receiver = channel.subscribe();
    let packet = prepare_data_packet(channel.receiver_count(), vec![4, 2], Some(5), None).unwrap();
    let sent = futures::executor::block_on(channel.sender().broadcast(packet));
    assert!(broadcast_outcome(sent).is_ok());
    let got = futures::executor::block_on(receiver.recv()).unwrap();
    assert_eq!(got.data, vec![4, 2]);
    assert_eq!(got.time, Some(Duration::from_nanos(5)));
}

#[test]
fn closing_a_channel_reports_the_first_close_only() {
    let channel: StreamChannel<u8> = StreamChannel::new();
    let mut receiver = channel.subscribe();
    assert!(channel.close());
    assert!(!channel.close());
    let sent = futures::executor::block_on(channel.sender().broadcast(1));
    assert_eq!(broadcast_outcome(sent), Err(CyanotypeError::ChannelSendError));
    assert!(futures::executor::block_on(receiver.recv()).is_err());
}

#[test]
fn broadcast_outcome_maps_success_and_failure() {
    assert_eq!(broadcast_outcome::<u8>(Ok(None)), Ok(()));
    assert_eq!(broadcast_outcome::<u8>(Ok(Some(3))), Ok(()));
    assert_eq!(
        broadcast_outcome::<u8>(Err(async_broadcast::SendError(3))),
        Err(CyanotypeError::ChannelSendError)
    );
}

#[test]
fn error_messages() {
    assert_eq!(CyanotypeError::NoVideoStream.message(), "couldn't find a videostream");
    assert_eq!(CyanotypeError::SubtitleError.message(), "couldn't parse subtitles");
    assert_eq!(CyanotypeError::ImageDecodeError.message(), "couldn't decode image");
    assert_eq!(CyanotypeError::TimeMissing.message(), "couldn't get packet time from ffmpeg");
    assert_eq!(
        CyanotypeError::ChannelSendError.message(),
        "couldn't broadcast a packet to a stream"
    );
    assert_eq!(
        CyanotypeError::FFmpegError("end of file".to_string()).message(),
        "end of file"
    );
    let utf8 = String::from_utf8(vec![0xff]).unwrap_err();
    let text = utf8.to_string();
    assert_eq!(CyanotypeError::UTF8Error(utf8).message(), text);
}

#[test]
fn a_subscription_receives_in_order_only_what_follows_it() {
    let channel: StreamChannel<u32> = StreamChannel::new();
    let mut early = channel.subscribe();
    futures::executor::block_on(channel.sender().broadcast(1)).unwrap();
    let mut late = channel.subscribe();
    assert_eq!(channel.receiver_count(), 2);
    assert!(forwards_frame(false, channel.receiver_count()));
    futures::executor::block_on(channel.sender().broadcast(2)).unwrap();
    futures::executor::block_on(channel.sender().broadcast(3)).unwrap();
    assert!(channel.close());
    let drain = |r: &mut async_broadcast::Receiver<u32>| {
        let mut got = Vec::new();
        while let Ok(v) = futures::executor::block_on(r.recv()) {
            got.push(v);
        }
        got
    };
    assert_eq!(drain(&mut early), vec![1, 2, 3]);
    assert_eq!(drain(&mut late), vec![2, 3]);
    let sent = futures::executor::block_on(channel.sender().broadcast(4));
    assert_eq!(broadcast_outcome(sent), Err(CyanotypeError::ChannelSendError));
}
