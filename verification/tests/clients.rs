use mentionbot::config::Config;
use mentionbot::mastodon::Mastodon;
use mentionbot::matrix::Matrix;
use mentionbot::mattermost::{Channel, Mattermost};
use mentionbot::poll::{PollLoop, PollState};
use mentionbot::twitter::{MentionsTimeline, SearchTweets, Tweet};
use mentionbot::zinc::Zinc;

#[test]
fn mastodon_endpoints_and_params() {
    let m = Mastodon::new("https://mastodon.social", "token123");
    assert_eq!(m.statuses_url(), "https://mastodon.social/api/v1/statuses");
    assert_eq!(m.notifications_url(), "https://mastodon.social/api/v1/notifications/");
    assert_eq!(m.search_url(), "https://mastodon.social/api/v2/search/");
    assert_eq!(
        m.clear_notifications_url(),
        "https://mastodon.social/api/v1/notifications/clear"
    );
    assert_eq!(m.bearer(), "Bearer token123");
    let params = Mastodon::notifications_params("110758642668166239");
    assert_eq!(
        params,
        [
            ("types[]".to_string(), "mention".to_string()),
            ("since_id".to_string(), "110758642668166239".to_string()),
        ]
    );
    let search = Mastodon::search_params("42");
    assert_eq!(search[0], ("min_id".to_string(), "42".to_string()));
    assert_eq!(search[1], ("q".to_string(), "atareao".to_string()));
    assert_eq!(search[2], ("type".to_string(), "statuses".to_string()));
}

#[test]
fn zinc_url_is_assembled() {
    let z = Zinc::new("zinc.example.org", "bot", "token123");
    assert_eq!(z.url, "https://zinc.example.org/api/default/bot/_json");
    assert_eq!(z.basic(), "Basic token123");
}

#[test]
fn matrix_message_url_encodes_the_room() {
    let m = Matrix::new("matrix.org".to_string(), "token123".to_string());
    let url = m.message_url("!abc:x", 1700000000);
    assert_eq!(
        url,
        "https://matrix.org/_matrix/client/v3/rooms/%21abc%3Ax:matrix.org/send/m.room.message/1700000000"
    );
}

#[test]
fn matrix_message_url_renders_extreme_timestamps() {
    let m = Matrix::new("matrix.org".to_string(), "token123".to_string());
    assert!(m.message_url("a", 0).ends_with("/send/m.room.message/0"));
    assert!(m
        .message_url("a", u64::MAX)
        .ends_with("/send/m.room.message/18446744073709551615"));
}

#[test]
fn mattermost_endpoints_and_body() {
    let m = Mattermost::new("https://chat.example.org", "token123");
    assert_eq!(m.posts_url(), "https://chat.example.org/api/v4/posts");
    assert_eq!(m.channels_url(), "https://chat.example.org/api/v4/channels");
    let body = Mattermost::post_body("ch1", "Esto es una prueba", Some("root9"));
    assert_eq!(body.channel_id, "ch1");
    assert_eq!(body.message, "Esto es una prueba");
    assert_eq!(body.root_id.as_deref(), Some("root9"));
    let plain = Mattermost::post_body("ch1", "hola", None);
    assert!(plain.root_id.is_none());
}

#[test]
fn find_channel() {
    let channels = vec![
        Channel { name: "correo".to_string(), id: "c1".to_string() },
        Channel { name: "atareao_idea".to_string(), id: "c2".to_string() },
        Channel { name: "atareao_idea".to_string(), id: "c3".to_string() },
    ];
    assert_eq!(
        Mattermost::get_channel_by_name(&channels, "atareao_idea"),
        Some("c2".to_string())
    );
    assert_eq!(Mattermost::get_channel_by_name(&channels, "correo"), Some("c1".to_string()));
    assert_eq!(Mattermost::get_channel_by_name(&channels, "ausente"), None);
}

#[test]
fn twitter_params_keep_insertion_order() {
    let t = Tweet::new("muchas gracias por tu idea @atareao");
    assert_eq!(
        t.get_params(),
        [("status".to_string(), "muchas gracias por tu idea @atareao".to_string())]
    );
    let s = SearchTweets::new("@atareao", "123456");
    let params = s.get_params();
    assert_eq!(params[0], ("q".to_string(), "@atareao".to_string()));
    assert_eq!(params[1], ("include_entities".to_string(), "false".to_string()));
    assert_eq!(params[2], ("result_type".to_string(), "recent".to_string()));
    assert_eq!(params[3], ("tweet_mode".to_string(), "extended".to_string()));
    assert_eq!(params[4], ("since_id".to_string(), "123456".to_string()));
    let mt = MentionsTimeline::new("123456");
    let params = mt.get_params();
    assert_eq!(params[0], ("since_id".to_string(), "123456".to_string()));
    assert_eq!(params[1], ("include_entities".to_string(), "false".to_string()));
}

#[test]
fn poll_loop_cycle() {
    let mut p = PollLoop::new("0");
    assert_eq!(p.state, PollState::Idle);
    assert_eq!(p.cursor, "0");
    p.start_cycle();
    assert_eq!(p.state, PollState::Polling);
    let persist = p.finish_cycle(Some("5".to_string()));
    assert_eq!(p.state, PollState::Idle);
    assert_eq!(p.cursor, "5");
    assert_eq!(persist.expect("a new cursor is persisted").get_last_id(), "5");
    p.start_cycle();
    let persist = p.finish_cycle(None);
    assert!(persist.is_none());
    assert_eq!(p.cursor, "5");
}

#[test]
fn config_accessors() {
    let c = Config::new("110758642668166239");
    assert_eq!(c.get_last_id(), "110758642668166239");
    assert_eq!(c.last_id, "110758642668166239");
}
