use futures_loco_protocol::session::LocoSession;
use futures_loco_protocol::LocoClient;
use talk_loco_client::session::TalkSession;

fn quiet_session() -> LocoSession {
    LocoSession::new(LocoClient::new(())).0
}

#[test]
fn channel_carries_the_id() {
    let session = quiet_session();
    let channel = TalkSession(&session).channel(18_273_645);
    assert_eq!(channel.id, 18_273_645);
}

#[test]
fn channel_takes_zero_and_negative_ids() {
    let session = quiet_session();
    let talk = TalkSession(&session);
    for id in [0, -1, -18_273_645, i64::MIN, i64::MAX] {
        assert_eq!(talk.channel(id).id, id);
    }
}

#[test]
fn channel_is_bound_to_its_session() {
    let session = quiet_session();
    let other = quiet_session();
    let channel = TalkSession(&session).channel(3);
    assert!(std::ptr::eq(channel.session, &session));
    assert!(!std::ptr::eq(channel.session, &other));
}

#[test]
fn channels_of_one_session_share_it() {
    let session = quiet_session();
    let talk = TalkSession(&session);
    let first = talk.channel(1);
    let second = talk.channel(2);
    assert!(std::ptr::eq(first.session, second.session));
    assert_eq!((first.id, second.id), (1, 2));
}
