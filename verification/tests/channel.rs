use rust_of_life::channel::{ChannelError, CommandChannel, SnapshotChannel};
use rust_of_life::state::board::create;
use rust_of_life::state::game::GameData;
use rust_of_life::view::ui::ControlMessages;

fn snapshot_with_marker(running: bool, alive_x: usize) -> GameData {
    let mut cells = create(3, 3).unwrap();
    cells[alive_x][0].reanimate();
    let previous = create(3, 3).unwrap();
    GameData { running, cells, previousGeneration: previous }
}

#[test]
fn burst_beyond_capacity_reports_full() {
    let mut channel = CommandChannel::new(3);
    assert_eq!(channel.send(ControlMessages::Start), Ok(()));
    assert_eq!(channel.send(ControlMessages::Step), Ok(()));
    assert_eq!(channel.send(ControlMessages::Stop), Ok(()));
    // The queue is at capacity: further sends report Full and are
    // dropped, without blocking.
    assert_eq!(channel.send(ControlMessages::Reset), Err(ChannelError::Full));
    assert_eq!(channel.send(ControlMessages::Start), Err(ChannelError::Full));
    // The three accepted commands are still there, in order.
    assert_eq!(channel.try_receive(), Some(ControlMessages::Start));
    assert_eq!(channel.try_receive(), Some(ControlMessages::Step));
    assert_eq!(channel.try_receive(), Some(ControlMessages::Stop));
    assert_eq!(channel.try_receive(), None);
}

#[test]
fn receive_order_is_fifo() {
    let mut channel = CommandChannel::new(8);
    assert_eq!(channel.try_receive(), None);
    assert_eq!(channel.send(ControlMessages::Reset), Ok(()));
    assert_eq!(channel.send(ControlMessages::Start), Ok(()));
    assert_eq!(channel.try_receive(), Some(ControlMessages::Reset));
    assert_eq!(channel.send(ControlMessages::Stop), Ok(()));
    assert_eq!(channel.try_receive(), Some(ControlMessages::Start));
    assert_eq!(channel.try_receive(), Some(ControlMessages::Stop));
    assert_eq!(channel.try_receive(), None);
}

#[test]
fn send_has_room_again_after_a_receive() {
    let mut channel = CommandChannel::new(1);
    assert_eq!(channel.send(ControlMessages::Start), Ok(()));
    assert_eq!(channel.send(ControlMessages::Stop), Err(ChannelError::Full));
    assert_eq!(channel.try_receive(), Some(ControlMessages::Start));
    assert_eq!(channel.send(ControlMessages::Stop), Ok(()));
    assert_eq!(channel.try_receive(), Some(ControlMessages::Stop));
}

#[test]
fn reads_without_a_publish_agree() {
    let channel = SnapshotChannel::new(snapshot_with_marker(true, 1));
    let first = channel.latest();
    let second = channel.latest();
    assert_eq!(first.running, second.running);
    assert_eq!(first.cells, second.cells);
    assert_eq!(first.previousGeneration, second.previousGeneration);
}

#[test]
fn a_reader_observes_only_the_latest_publish() {
    let mut channel = SnapshotChannel::new(snapshot_with_marker(false, 0));
    channel.publish(snapshot_with_marker(false, 1));
    channel.publish(snapshot_with_marker(true, 2));
    let expected = snapshot_with_marker(true, 2);
    let observed = channel.latest();
    assert_eq!(observed.running, expected.running);
    assert_eq!(observed.cells, expected.cells);
    assert_eq!(observed.previousGeneration, expected.previousGeneration);
}

#[test]
fn a_read_does_not_consume_the_snapshot() {
    let mut channel = SnapshotChannel::new(snapshot_with_marker(false, 0));
    channel.publish(snapshot_with_marker(true, 1));
    let expected = snapshot_with_marker(true, 1);
    let first = channel.latest();
    let second = channel.latest();
    assert_eq!(first.cells, expected.cells);
    assert_eq!(second.cells, expected.cells);
}
