use selfoss_discord::discord::errors::{HttpFailure, RequestError};
use selfoss_discord::discord::models::{DiscordChannel, DiscordMessage};
use selfoss_discord::registry::ChannelRegistry;
use selfoss_discord::selfoss::models::{SelfossItem, Timestamp};
use selfoss_discord::sync::{
    phase_on_arrival, phase_when_resolved, SyncAction, SyncError, SyncEvent, SyncPhase,
    Synchronizer,
};

/// The two services, played from a script: the calls made so far, and the
/// calls that are to fail.
struct Services {
    calls: Vec<SyncAction>,
    fail_create: bool,
    fail_post_of: Option<String>,
    fail_mark_of: Option<u64>,
}

impl Services {
    fn working() -> Services {
        Services { calls: Vec::new(), fail_create: false, fail_post_of: None, fail_mark_of: None }
    }

    fn perform(&mut self, action: &SyncAction) -> SyncEvent {
        self.calls.push(action.clone());
        match action {
            SyncAction::CreateChannel { name } => {
                if self.fail_create {
                    SyncEvent::Failed(RequestError::Serde(String::from("expected value")))
                } else {
                    SyncEvent::ChannelCreated(DiscordChannel {
                        name: name.clone(),
                        id: format!("id-of-{}", name),
                    })
                }
            }
            SyncAction::PostMessage { content, .. } => {
                if self.fail_post_of.as_ref() == Some(content) {
                    SyncEvent::Failed(rate_limited())
                } else {
                    SyncEvent::MessagePosted(DiscordMessage { id: String::from("1") })
                }
            }
            SyncAction::MarkRead { item_id } => {
                if self.fail_mark_of == Some(*item_id) {
                    SyncEvent::Failed(RequestError::ReqwestMiddleware(String::from("gave up")))
                } else {
                    SyncEvent::MarkedRead
                }
            }
            SyncAction::Finish => unreachable!(),
        }
    }

    fn created(&self) -> Vec<String> {
        let mut names = Vec::new();
        for call in &self.calls {
            if let SyncAction::CreateChannel { name } = call {
                names.push(name.clone());
            }
        }
        names
    }

    fn posted(&self) -> Vec<(String, String)> {
        let mut messages = Vec::new();
        for call in &self.calls {
            if let SyncAction::PostMessage { channel_id, content } = call {
                messages.push((channel_id.clone(), content.clone()));
            }
        }
        messages
    }

    fn marked(&self) -> Vec<u64> {
        let mut ids = Vec::new();
        for call in &self.calls {
            if let SyncAction::MarkRead { item_id } = call {
                ids.push(*item_id);
            }
        }
        ids
    }
}

fn rate_limited() -> RequestError {
    RequestError::Reqwest(HttpFailure {
        status: Some(429),
        message: String::from("HTTP status client error (429 Too Many Requests)"),
    })
}

fn send_messages(
    services: &mut Services,
    item_list: Vec<SelfossItem>,
    channel_map: ChannelRegistry,
) -> Result<(), SyncError> {
    let mut run = Synchronizer::new(item_list, channel_map);
    let mut action = run.pending();
    while action != SyncAction::Finish {
        let event = services.perform(&action);
        action = run.step(event);
    }
    run.into_result().expect("the run is over")
}

fn item(id: u64, sourcetitle: &str, content: &str) -> SelfossItem {
    SelfossItem {
        title: String::from("My Title"),
        sourcetitle: String::from(sourcetitle),
        content: String::from(content),
        datetime: Timestamp { seconds: 1702662036, nanoseconds: 0 },
        id,
    }
}

fn get_mock_item() -> SelfossItem {
    SelfossItem {
        title: String::from("My title"),
        sourcetitle: String::from("my_channel"),
        content: String::from("My content"),
        datetime: Timestamp { seconds: 1702662036, nanoseconds: 0 },
        id: 187204,
    }
}

fn mock_channel_map() -> ChannelRegistry {
    ChannelRegistry::from_channels(vec![DiscordChannel {
        name: String::from("my_channel"),
        id: String::from("my_channel_id"),
    }])
}

fn post(channel_id: &str, content: &str) -> (String, String) {
    (String::from(channel_id), String::from(content))
}

#[test]
fn test_send_messages_and_mark_read() {
    let mut services = Services::working();
    let result = send_messages(&mut services, vec![get_mock_item()], mock_channel_map());

    result.expect("Did not send messages correctly");
    assert_eq!(services.posted(), vec![post("my_channel_id", "My content")]);
    assert_eq!(services.marked(), vec![187204]);
    assert_eq!(services.created(), Vec::<String>::new());
}

#[test]
fn test_send_messages_ratelimited() {
    let mut services = Services::working();
    services.fail_post_of = Some(String::from("My content"));
    let result = send_messages(&mut services, vec![get_mock_item()], mock_channel_map());

    let error = result.expect_err("Did somehow send messages without being ratelimited");
    match error.error {
        RequestError::Reqwest(x) => assert_eq!(x.status, Some(429)),
        _ => panic!("expected Reqwest error"),
    }
    assert_eq!(services.posted(), vec![post("my_channel_id", "My content")]);
    assert_eq!(services.marked(), Vec::<u64>::new());
}

#[test]
fn one_item_creates_its_channel_sends_and_acknowledges() {
    let mut services = Services::working();
    let items = vec![item(187204, "My Channel", "<p>My content</p>")];
    let result = send_messages(&mut services, items, ChannelRegistry::new());

    assert_eq!(result, Ok(()));
    assert_eq!(
        services.calls,
        vec![
            SyncAction::CreateChannel { name: String::from("my-channel") },
            SyncAction::PostMessage {
                channel_id: String::from("id-of-my-channel"),
                content: String::from("My content"),
            },
            SyncAction::MarkRead { item_id: 187204 },
        ]
    );
}

#[test]
fn rate_limited_send_is_not_acknowledged() {
    let mut services = Services::working();
    services.fail_post_of = Some(String::from("My content"));
    let items = vec![item(187204, "My Channel", "<p>My content</p>")];
    let result = send_messages(&mut services, items, ChannelRegistry::new());

    assert_eq!(result, Err(SyncError { index: 0, item_id: 187204, error: rate_limited() }));
    assert_eq!(services.created(), vec![String::from("my-channel")]);
    assert_eq!(services.posted(), vec![post("id-of-my-channel", "My content")]);
    assert_eq!(services.marked(), Vec::<u64>::new());
}

#[test]
fn two_items_of_one_source_create_one_channel() {
    let mut services = Services::working();
    let items =
        vec![item(1, "My Channel", "<p>first</p>"), item(2, "My Channel", "<p>second</p>")];
    let result = send_messages(&mut services, items, ChannelRegistry::new());

    assert_eq!(result, Ok(()));
    assert_eq!(services.created(), vec![String::from("my-channel")]);
    assert_eq!(
        services.posted(),
        vec![post("id-of-my-channel", "first"), post("id-of-my-channel", "second")]
    );
    assert_eq!(services.marked(), vec![1, 2]);
}

#[test]
fn titles_with_one_collapsed_form_share_a_channel() {
    let mut services = Services::working();
    let items = vec![
        item(1, "My Channel", "one"),
        item(2, "my.channel", "two"),
        item(3, "Other", "three"),
        item(4, "MY-CHANNEL", "four"),
    ];
    let result = send_messages(&mut services, items, ChannelRegistry::new());

    assert_eq!(result, Ok(()));
    assert_eq!(services.created(), vec![String::from("my-channel"), String::from("other")]);
    assert_eq!(
        services.posted(),
        vec![
            post("id-of-my-channel", "one"),
            post("id-of-my-channel", "two"),
            post("id-of-other", "three"),
            post("id-of-my-channel", "four"),
        ]
    );
    assert_eq!(services.marked(), vec![1, 2, 3, 4]);
}

#[test]
fn failed_send_stops_the_batch() {
    let mut services = Services::working();
    services.fail_post_of = Some(String::from("third"));
    let items = vec![
        item(10, "a", "first"),
        item(11, "b", "second"),
        item(12, "a", "third"),
        item(13, "c", "fourth"),
        item(14, "a", "fifth"),
    ];
    let result = send_messages(&mut services, items, ChannelRegistry::new());

    assert_eq!(result, Err(SyncError { index: 2, item_id: 12, error: rate_limited() }));
    assert_eq!(services.marked(), vec![10, 11]);
    assert_eq!(services.created(), vec![String::from("a"), String::from("b")]);
    assert_eq!(
        services.posted(),
        vec![post("id-of-a", "first"), post("id-of-b", "second"), post("id-of-a", "third")]
    );
}

#[test]
fn failed_creation_stops_the_batch() {
    let mut services = Services::working();
    services.fail_create = true;
    let items = vec![item(1, "known", "first"), item(2, "unknown", "second"), item(3, "known", "x")];
    let registry = ChannelRegistry::from_channels(vec![DiscordChannel {
        name: String::from("known"),
        id: String::from("k"),
    }]);
    let result = send_messages(&mut services, items, registry);

    assert_eq!(
        result,
        Err(SyncError {
            index: 1,
            item_id: 2,
            error: RequestError::Serde(String::from("expected value")),
        })
    );
    assert_eq!(services.created(), vec![String::from("unknown")]);
    assert_eq!(services.posted(), vec![post("k", "first")]);
    assert_eq!(services.marked(), vec![1]);
}

#[test]
fn failed_acknowledgement_stops_the_batch() {
    let mut services = Services::working();
    services.fail_mark_of = Some(1);
    let items = vec![item(1, "a", "first"), item(2, "a", "second")];
    let result = send_messages(&mut services, items, ChannelRegistry::new());

    assert_eq!(
        result,
        Err(SyncError {
            index: 0,
            item_id: 1,
            error: RequestError::ReqwestMiddleware(String::from("gave up")),
        })
    );
    assert_eq!(services.posted(), vec![post("id-of-a", "first")]);
    assert_eq!(services.marked(), vec![1]);
}

#[test]
fn empty_content_is_acknowledged_without_a_message() {
    let mut services = Services::working();
    let items = vec![item(5, "My Channel", "")];
    let result = send_messages(&mut services, items, ChannelRegistry::new());

    assert_eq!(result, Ok(()));
    assert_eq!(
        services.calls,
        vec![
            SyncAction::CreateChannel { name: String::from("my-channel") },
            SyncAction::MarkRead { item_id: 5 },
        ]
    );
}

#[test]
fn content_without_text_is_acknowledged_without_a_message() {
    let mut services = Services::working();
    let items = vec![item(6, "a", "<img src=\"x.png\">"), item(7, "a", "<p>text</p>")];
    let registry = ChannelRegistry::from_channels(vec![DiscordChannel {
        name: String::from("a"),
        id: String::from("1"),
    }]);
    let result = send_messages(&mut services, items, registry);

    assert_eq!(result, Ok(()));
    assert_eq!(
        services.calls,
        vec![
            SyncAction::MarkRead { item_id: 6 },
            SyncAction::PostMessage { channel_id: String::from("1"), content: String::from("text") },
            SyncAction::MarkRead { item_id: 7 },
        ]
    );
}

#[test]
fn empty_batch_is_done_at_once() {
    let run = Synchronizer::new(Vec::new(), ChannelRegistry::new());
    assert_eq!(run.phase(), SyncPhase::Done);
    assert_eq!(run.pending(), SyncAction::Finish);
    assert_eq!(run.into_result(), Some(Ok(())));
}

#[test]
fn running_run_has_no_result() {
    let run = Synchronizer::new(vec![get_mock_item()], mock_channel_map());
    assert_eq!(run.phase(), SyncPhase::SendingMessage);
    assert_eq!(run.into_result(), None);
}

#[test]
fn created_channel_is_registered_under_the_derived_name() {
    let mut run = Synchronizer::new(vec![item(1, "My Channel", "text")], ChannelRegistry::new());
    assert_eq!(run.phase(), SyncPhase::CreatingChannel);
    assert!(!run.registry().contains("my-channel"));

    let action = run.step(SyncEvent::ChannelCreated(DiscordChannel {
        name: String::from("whatever the platform calls it"),
        id: String::from("42"),
    }));
    assert_eq!(
        action,
        SyncAction::PostMessage { channel_id: String::from("42"), content: String::from("text") }
    );
    assert_eq!(run.registry().get("my-channel"), Some(&String::from("42")));
    assert!(!run.registry().contains("whatever the platform calls it"));
}

#[test]
fn event_that_answers_nothing_changes_nothing() {
    let mut run = Synchronizer::new(vec![get_mock_item()], mock_channel_map());
    let pending = run.pending();
    assert_eq!(
        pending,
        SyncAction::PostMessage {
            channel_id: String::from("my_channel_id"),
            content: String::from("My content"),
        }
    );
    assert_eq!(run.step(SyncEvent::MarkedRead), pending);
    let stray = DiscordChannel { name: String::from("x"), id: String::from("y") };
    assert_eq!(run.step(SyncEvent::ChannelCreated(stray)), pending);
    assert!(!run.registry().contains("x"));
    assert_eq!(run.phase(), SyncPhase::SendingMessage);

    let posted = SyncEvent::MessagePosted(DiscordMessage { id: String::from("1") });
    assert_eq!(run.step(posted.clone()), SyncAction::MarkRead { item_id: 187204 });
    assert_eq!(run.step(posted), SyncAction::MarkRead { item_id: 187204 });
    assert_eq!(run.step(SyncEvent::MarkedRead), SyncAction::Finish);
    assert_eq!(run.step(SyncEvent::MarkedRead), SyncAction::Finish);
    assert_eq!(run.step(SyncEvent::Failed(rate_limited())), SyncAction::Finish);
    assert_eq!(run.into_result(), Some(Ok(())));
}

#[test]
fn failed_run_stays_failed() {
    let mut run = Synchronizer::new(vec![get_mock_item(), get_mock_item()], mock_channel_map());
    assert_eq!(run.step(SyncEvent::Failed(rate_limited())), SyncAction::Finish);
    assert_eq!(run.phase(), SyncPhase::Failed);
    assert_eq!(run.step(SyncEvent::MarkedRead), SyncAction::Finish);
    let posted = SyncEvent::MessagePosted(DiscordMessage { id: String::from("1") });
    assert_eq!(run.step(posted), SyncAction::Finish);
    assert_eq!(
        run.into_result(),
        Some(Err(SyncError { index: 0, item_id: 187204, error: rate_limited() }))
    );
}

#[test]
fn phase_of_a_resolved_item() {
    assert_eq!(phase_when_resolved("<p>a</p>", "a"), SyncPhase::SendingMessage);
    assert_eq!(phase_when_resolved("<p></p>", ""), SyncPhase::MarkingRead);
    assert_eq!(phase_when_resolved("", ""), SyncPhase::MarkingRead);
    assert_eq!(phase_when_resolved("", "a"), SyncPhase::MarkingRead);
}

#[test]
fn phase_of_an_arriving_item() {
    let registry = mock_channel_map();
    assert_eq!(phase_on_arrival(&registry, "my_channel", "a", "a"), SyncPhase::SendingMessage);
    assert_eq!(phase_on_arrival(&registry, "my_channel", "a", ""), SyncPhase::MarkingRead);
    assert_eq!(phase_on_arrival(&registry, "other", "a", "a"), SyncPhase::CreatingChannel);
    assert_eq!(phase_on_arrival(&registry, "other", "", ""), SyncPhase::CreatingChannel);
}
