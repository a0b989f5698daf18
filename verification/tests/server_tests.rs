use rstreamer::error::RStreamerError;
use rstreamer::outcome::Outcome;
use rstreamer::server::stream_handler;
use rstreamer::server::ConnectionState;
use rstreamer::server::FeedItem;
use rstreamer::server::ServerAction;
use rstreamer::server::StreamingServer;
use rstreamer::server::ALL_INTERFACES;

fn header(len: usize) -> Vec<u8> {
    format!("--rstreamer_boundary\r\nContent-Type: image/jpeg\r\nContent-Length: {}\r\n\r\n", len)
        .into_bytes()
}

fn part(frame: &[u8]) -> Vec<Vec<u8>> {
    vec![header(frame.len()), frame.to_vec(), b"\r\n".to_vec()]
}

fn closing() -> Vec<u8> {
    b"--rstreamer_boundary--\r\n".to_vec()
}

fn new_server(port: u16) -> StreamingServer {
    match StreamingServer::new(port) {
        Ok(server) => server,
        Err(error) => panic!("{}", error.message()),
    }
}

fn action(reply: Result<ServerAction, RStreamerError>) -> ServerAction {
    match reply {
        Ok(action) => action,
        Err(error) => panic!("{}", error.message()),
    }
}

#[test]
fn repeated_frame_is_emitted_once() {
    let a = vec![1u8, 2, 3];
    let b = vec![4u8, 5];
    let feed = vec![
        FeedItem::Frame(a.clone()),
        FeedItem::Frame(a.clone()),
        FeedItem::Frame(b.clone()),
    ];
    let response = stream_handler(feed);
    let mut expected = part(&a);
    expected.extend(part(&b));
    expected.push(closing());
    assert_eq!(response.body, expected);
    assert_eq!(response.body.len(), 7);
}

#[test]
fn second_occurrence_writes_no_bytes() {
    let a = vec![1u8, 2, 3];
    let b = vec![4u8, 5];
    let mut connection = ConnectionState::new();
    assert_eq!(connection.on_item(FeedItem::Frame(a.clone())), part(&a));
    assert_eq!(connection.on_item(FeedItem::Frame(a.clone())), Vec::<Vec<u8>>::new());
    assert_eq!(connection.on_item(FeedItem::Frame(b.clone())), part(&b));
    assert_eq!(connection.finish(), closing());
}

#[test]
fn response_head_announces_the_stream() {
    let response = stream_handler(Vec::new());
    assert_eq!(response.status, 200);
    assert_eq!(response.content_type, "multipart/x-mixed-replace; boundary=rstreamer_boundary");
}

#[test]
fn empty_feed_gives_only_the_closing_boundary() {
    let response = stream_handler(Vec::new());
    assert_eq!(response.body, vec![closing()]);
}

#[test]
fn every_distinct_content_is_emitted_at_its_first_occurrence() {
    let a = vec![10u8; 4];
    let b = vec![20u8; 2];
    let c = vec![30u8; 6];
    let feed = vec![
        FeedItem::Frame(a.clone()),
        FeedItem::Frame(b.clone()),
        FeedItem::Frame(a.clone()),
        FeedItem::Frame(c.clone()),
        FeedItem::Frame(b.clone()),
        FeedItem::Frame(b.clone()),
        FeedItem::Frame(a.clone()),
        FeedItem::Frame(c.clone()),
    ];
    let response = stream_handler(feed);
    let mut expected = part(&a);
    expected.extend(part(&b));
    expected.extend(part(&c));
    expected.push(closing());
    assert_eq!(response.body, expected);
}

#[test]
fn frames_that_differ_in_one_byte_are_distinct() {
    let mut connection = ConnectionState::new();
    assert_eq!(connection.on_item(FeedItem::Frame(vec![0, 0, 0])).len(), 3);
    assert_eq!(connection.on_item(FeedItem::Frame(vec![0, 0, 1])).len(), 3);
    assert_eq!(connection.on_item(FeedItem::Frame(vec![0, 0])).len(), 3);
    assert_eq!(connection.on_item(FeedItem::Frame(vec![0, 0, 0, 0])).len(), 3);
    assert_eq!(connection.on_item(FeedItem::Frame(vec![0, 0, 1])).len(), 0);
    assert_eq!(connection.on_item(FeedItem::Frame(vec![0, 0])).len(), 0);
}

#[test]
fn empty_frame_is_a_frame() {
    let mut connection = ConnectionState::new();
    assert_eq!(connection.on_item(FeedItem::Frame(Vec::new())), part(&[]));
    assert_eq!(connection.on_item(FeedItem::Frame(Vec::new())), Vec::<Vec<u8>>::new());
}

#[test]
fn gap_writes_nothing_and_forgets_nothing() {
    let a = vec![7u8; 5];
    let b = vec![8u8; 5];
    let mut connection = ConnectionState::new();
    assert_eq!(connection.on_item(FeedItem::Frame(a.clone())), part(&a));
    assert_eq!(connection.on_item(FeedItem::Lagged(12)), Vec::<Vec<u8>>::new());
    assert_eq!(connection.on_item(FeedItem::Frame(a.clone())), Vec::<Vec<u8>>::new());
    assert_eq!(connection.on_item(FeedItem::Frame(b.clone())), part(&b));
}

#[test]
fn feed_with_gaps_streams_like_the_feed_without_them() {
    let a = vec![1u8];
    let b = vec![2u8];
    let with_gaps = vec![
        FeedItem::Lagged(3),
        FeedItem::Frame(a.clone()),
        FeedItem::Lagged(1),
        FeedItem::Frame(b.clone()),
        FeedItem::Frame(a.clone()),
        FeedItem::Lagged(40),
    ];
    let without = vec![
        FeedItem::Frame(a.clone()),
        FeedItem::Frame(b.clone()),
        FeedItem::Frame(a.clone()),
    ];
    assert_eq!(stream_handler(with_gaps).body, stream_handler(without).body);
}

#[test]
fn connections_do_not_share_what_they_have_seen() {
    let a = vec![9u8, 9];
    let mut first = ConnectionState::new();
    let mut second = ConnectionState::new();
    assert_eq!(first.on_item(FeedItem::Frame(a.clone())), part(&a));
    assert_eq!(second.on_item(FeedItem::Frame(a.clone())), part(&a));
    assert_eq!(first.on_item(FeedItem::Frame(a.clone())), Vec::<Vec<u8>>::new());
    assert_eq!(second.on_item(FeedItem::Frame(a.clone())), Vec::<Vec<u8>>::new());
}

#[test]
fn closing_a_connection_leaves_the_others_as_they_were() {
    let a = vec![1u8, 1];
    let b = vec![2u8, 2];
    let mut stays = ConnectionState::new();
    let mut leaves = ConnectionState::new();
    assert_eq!(stays.on_item(FeedItem::Frame(a.clone())), part(&a));
    assert_eq!(leaves.on_item(FeedItem::Frame(a.clone())), part(&a));
    assert_eq!(leaves.finish(), closing());
    let mut joins = ConnectionState::new();
    assert_eq!(stays.on_item(FeedItem::Frame(b.clone())), part(&b));
    assert_eq!(joins.on_item(FeedItem::Frame(b.clone())), part(&b));
    assert_eq!(stays.on_item(FeedItem::Frame(a.clone())), Vec::<Vec<u8>>::new());
}

#[test]
fn server_binds_all_interfaces_then_serves() {
    let mut server = new_server(8080);
    assert!(!server.is_active());
    assert_eq!(
        action(server.start()),
        ServerAction::Bind { address: [0, 0, 0, 0], port: 8080 }
    );
    assert_eq!(ALL_INTERFACES, [0, 0, 0, 0]);
    assert!(server.is_active());
    assert_eq!(action(server.step(Outcome::Completed)), ServerAction::Serve);
    assert!(server.is_active());
}

#[test]
fn failed_bind_is_a_server_error() {
    let mut server = new_server(80);
    action(server.start());
    match server.step(Outcome::Failed(String::from("permission denied"))) {
        Err(RStreamerError::ServerError(detail)) => assert_eq!(detail, "permission denied"),
        other => panic!("unexpected {:?}", other),
    }
    assert!(!server.is_active());
    assert_eq!(action(server.step(Outcome::Completed)), ServerAction::Nothing);
}

#[test]
fn stop_aborts_an_active_server_once() {
    let mut server = new_server(9000);
    action(server.start());
    action(server.step(Outcome::Completed));
    assert_eq!(action(server.stop()), ServerAction::Abort);
    assert!(!server.is_active());
    assert_eq!(action(server.stop()), ServerAction::Nothing);
}

#[test]
fn stop_before_start_does_nothing() {
    let mut server = new_server(9000);
    assert_eq!(action(server.stop()), ServerAction::Nothing);
    assert_eq!(
        action(server.start()),
        ServerAction::Bind { address: [0, 0, 0, 0], port: 9000 }
    );
}

#[test]
fn stop_while_binding_aborts() {
    let mut server = new_server(9000);
    action(server.start());
    assert_eq!(action(server.stop()), ServerAction::Abort);
    assert_eq!(action(server.step(Outcome::Completed)), ServerAction::Nothing);
}

#[test]
fn start_on_an_active_server_asks_for_nothing() {
    let mut server = new_server(9000);
    action(server.start());
    assert_eq!(action(server.start()), ServerAction::Nothing);
    action(server.step(Outcome::Completed));
    assert_eq!(action(server.start()), ServerAction::Nothing);
}

#[test]
fn server_can_be_started_again_after_stop() {
    let mut server = new_server(9001);
    action(server.start());
    action(server.step(Outcome::Completed));
    action(server.stop());
    assert_eq!(
        action(server.start()),
        ServerAction::Bind { address: [0, 0, 0, 0], port: 9001 }
    );
}

#[test]
fn end_of_serving_stops_the_server() {
    let mut server = new_server(9002);
    action(server.start());
    action(server.step(Outcome::Completed));
    assert_eq!(
        action(server.step(Outcome::Failed(String::from("accept failed")))),
        ServerAction::Nothing
    );
    assert!(!server.is_active());
}

#[test]
fn parts_for_the_start_of_a_feed_start_the_parts_for_the_feed() {
    let frames: Vec<Vec<u8>> =
        vec![vec![1], vec![2], vec![1], vec![3], vec![3], vec![2], vec![4]];
    let whole = stream_handler(frames.iter().cloned().map(FeedItem::Frame).collect()).body;
    for count in 0..=frames.len() {
        let start =
            stream_handler(frames[..count].iter().cloned().map(FeedItem::Frame).collect()).body;
        let parts = start.len() - 1;
        assert_eq!(start[..parts], whole[..parts]);
        assert_eq!(start[parts], closing());
    }
}

#[test]
fn only_a_gap_calls_for_a_new_subscription() {
    assert!(FeedItem::Lagged(1).renews_subscription());
    assert!(FeedItem::Lagged(0).renews_subscription());
    assert!(FeedItem::Lagged(u64::MAX).renews_subscription());
    assert!(!FeedItem::Frame(vec![1, 2, 3]).renews_subscription());
    assert!(!FeedItem::Frame(Vec::new()).renews_subscription());
}
