use asterisk::agent::{Dreamer, Metrics, DREAMER_SYSTEM_INSTRUCTION, NOTIFICATION_USER_MESSAGE};
use asterisk::builder::DreamerBuilder;
use asterisk::env::{env_file, Env};
use asterisk::error::DreamerError;
use asterisk::prompt::PromptMessage;
use asterisk::protocol::{MessageKind, ThreadMessage};
use asterisk::tools::{parse_tool, MessageBox, Tool, ToolError, MESSAGE_BOX_TOOL};

fn reported_kinds(metrics: &[Metrics]) -> Vec<MessageKind> {
    metrics
        .iter()
        .map(|m| match m {
            Metrics::ThreadMessage(t) => t.kind(),
        })
        .collect()
}

fn busy_agent(tools: Vec<String>) -> Dreamer {
    let mut agent = Dreamer::builder().system_instruction("S".to_string()).tools(tools).build();
    agent.handle_incoming_message("hello".to_string());
    agent
}

#[test]
fn incoming_message_emits_one_notification_and_makes_busy() {
    let mut agent = Dreamer::builder().system_instruction("S".to_string()).build();
    assert!(agent.is_idle());
    let metric = agent.handle_incoming_message("hello".to_string());
    match metric {
        Metrics::ThreadMessage(ThreadMessage::Notification(n)) => {
            assert_eq!(n.get_main_content(), NOTIFICATION_USER_MESSAGE);
        }
        other => panic!("unexpected {:?}", other),
    }
    assert!(!agent.is_idle());
    assert_eq!(agent.thread().history_len(), 1);
    let prompt = agent.prompt();
    assert_eq!(prompt.len(), 2);
    assert_eq!(prompt.messages()[0], PromptMessage::system("S"));
    assert_eq!(
        prompt.messages()[1],
        PromptMessage::assistant("[notification]\nMessage from the user!")
    );
}

#[test]
fn incomplete_thought_keeps_the_agent_busy() {
    let mut agent = busy_agent(vec![]);
    let reaction = agent.handle_model_response("[thought]\nstill thinking...").unwrap();
    assert!(!agent.is_idle());
    assert!(reaction.tool_call.is_none());
    assert_eq!(reported_kinds(&reaction.metrics), vec![MessageKind::Thought]);
    assert_eq!(agent.thread().history_len(), 2);
    assert_eq!(agent.prompt().len(), 3);
}

#[test]
fn complete_thought_makes_the_agent_idle() {
    let mut agent = busy_agent(vec![]);
    agent.handle_model_response("[thought]\nall done.").unwrap();
    assert!(agent.is_idle());
    assert_eq!(agent.thread().history_len(), 2);
}

#[test]
fn unknown_tool_records_the_action_and_goes_idle() {
    let mut agent = busy_agent(vec![]);
    let reaction = agent
        .handle_model_response("[action]\n{\"name\":\"unknown_tool\",\"args\":{}}")
        .unwrap();
    assert!(agent.is_idle());
    assert!(reaction.tool_call.is_none());
    assert_eq!(reported_kinds(&reaction.metrics), vec![MessageKind::Action]);
    assert_eq!(agent.thread().history_len(), 2);
    assert_eq!(agent.thread().history_at(1).kind(), MessageKind::Action);
}

#[test]
fn observation_from_the_model_is_fatal() {
    let mut agent = busy_agent(vec![]);
    match agent.handle_model_response("[observation]\n...") {
        Err(DreamerError::InvalidResponseMessage(m)) => {
            assert_eq!(m.kind(), MessageKind::Observation);
            assert_eq!(m.get_full_content(), "[observation]\n...");
        }
        other => panic!("unexpected {:?}", other),
    }
    assert_eq!(agent.thread().history_len(), 1);
}

#[test]
fn notification_from_the_model_is_fatal() {
    let mut agent = busy_agent(vec![]);
    assert!(matches!(
        agent.handle_model_response("[notification]\nhi"),
        Err(DreamerError::InvalidResponseMessage(ThreadMessage::Notification(_)))
    ));
}

#[test]
fn untagged_response_is_an_error() {
    let mut agent = busy_agent(vec![]);
    match agent.handle_model_response("plain text") {
        Err(DreamerError::InvalidThreadMessage(t)) => assert_eq!(t, "plain text"),
        other => panic!("unexpected {:?}", other),
    }
    assert!(!agent.is_idle());
}

#[test]
fn message_box_action_observes_the_user_message() {
    let mut agent = busy_agent(vec![]);
    let reaction = agent
        .handle_model_response("[action]\n{\"name\":\"message_box\",\"args\":{}}")
        .unwrap();
    assert!(!agent.is_idle());
    assert!(reaction.tool_call.is_none());
    assert_eq!(
        reported_kinds(&reaction.metrics),
        vec![MessageKind::Action, MessageKind::Observation]
    );
    match &reaction.metrics[1] {
        Metrics::ThreadMessage(m) => assert_eq!(m.get_full_content(), "[observation]\nhello"),
    }
    assert_eq!(agent.thread().history_len(), 3);
}

#[test]
fn message_box_without_message_ends_the_episode() {
    let mut agent = Dreamer::new("S", vec![]);
    let reaction = agent
        .handle_model_response("[action]\n{\"name\":\"message_box\",\"args\":{}}")
        .unwrap();
    assert!(agent.is_idle());
    assert_eq!(reported_kinds(&reaction.metrics), vec![MessageKind::Action]);
}

#[test]
fn host_tool_is_requested_and_its_result_observed() {
    let mut agent = busy_agent(vec!["search".to_string()]);
    let reaction = agent
        .handle_model_response("[action]\n{\"name\":\"search\",\"args\":{\"q\":\"tokyo\"}}")
        .unwrap();
    assert!(!agent.is_idle());
    let call = reaction.tool_call.expect("a tool call");
    assert_eq!(call.name, "search");
    assert_eq!(call.args.get("q").and_then(|v| v.as_str()), Some("tokyo"));
    let metrics = agent.handle_tool_result(Ok("sunny".to_string()));
    assert_eq!(reported_kinds(&metrics), vec![MessageKind::Observation]);
    assert!(!agent.is_idle());
    assert_eq!(agent.thread().history_at(2).get_full_content(), "[observation]\nsunny");
}

#[test]
fn failed_host_tool_ends_the_episode() {
    let mut agent = busy_agent(vec!["search".to_string()]);
    let metrics = agent.handle_tool_result(Err(ToolError::ExecutionFailed("down".to_string())));
    assert!(metrics.is_empty());
    assert!(agent.is_idle());
    assert_eq!(agent.thread().history_len(), 1);
}

#[test]
fn malformed_invocation_ends_the_episode() {
    for action in ["[action]\nnot json", "[action]\n{\"args\":{}}", "[action]\n{\"name\":\"search\"}"] {
        let mut agent = busy_agent(vec!["search".to_string()]);
        let reaction = agent.handle_model_response(action).unwrap();
        assert!(agent.is_idle());
        assert!(reaction.tool_call.is_none());
        assert_eq!(reported_kinds(&reaction.metrics), vec![MessageKind::Action]);
    }
}

#[test]
fn parse_tool_reads_name_and_args() {
    let (name, args) = parse_tool("{\"name\":\"memo\",\"args\":{\"k\":1}}").unwrap();
    assert_eq!(name, "memo");
    assert_eq!(args.len(), 1);
    assert!(matches!(parse_tool("{"), Err(ToolError::ParseFailed(_))));
    assert!(matches!(parse_tool(""), Err(ToolError::ParseFailed(_))));
    assert!(matches!(
        parse_tool("{\"name\":3,\"args\":{}}"),
        Err(ToolError::MalformedInvocation(_))
    ));
    assert!(matches!(
        parse_tool("{\"name\":\"x\",\"args\":[]}"),
        Err(ToolError::MalformedInvocation(_))
    ));
    assert!(matches!(parse_tool("[1]"), Err(ToolError::MalformedInvocation(_))));
}

#[test]
fn message_box_tool_reads_the_last_message() {
    let mut mb = MessageBox::default();
    match mb.read() {
        Err(ToolError::Custom(e)) => assert_eq!(e.message(), "Message is not set"),
        other => panic!("unexpected {:?}", other),
    }
    mb.update_message("first".to_string());
    mb.update_message("second".to_string());
    assert_eq!(mb.execute(serde_json::Map::new()).unwrap(), "second");
    assert_eq!(mb.name(), MESSAGE_BOX_TOOL);
}

#[test]
fn builder_defaults_to_the_built_in_instruction() {
    let agent = DreamerBuilder::default().build();
    assert_eq!(agent.thread().system_instruction(), DREAMER_SYSTEM_INSTRUCTION);
    assert!(agent.is_idle());
    assert!(!agent.has_tool(&"search".to_string()));
    let agent = Dreamer::builder().tools(vec!["search".to_string()]).build();
    assert!(agent.has_tool(&"search".to_string()));
}

#[test]
fn env_files() {
    assert_eq!(env_file(Env::Dev), ".env.dev");
    assert_eq!(env_file(Env::Prod), ".env");
}

#[test]
fn channels_deliver_in_send_order() {
    let (mut agent_side, mut external_side) = asterisk::channels::create();
    external_side.message_tx.send("a".to_string()).unwrap();
    external_side.message_tx.send("b".to_string()).unwrap();
    assert_eq!(agent_side.message_rx.try_recv().unwrap(), "a");
    assert_eq!(agent_side.message_rx.try_recv().unwrap(), "b");
    agent_side
        .metrics_tx
        .send(Metrics::ThreadMessage(ThreadMessage::thought("t")))
        .unwrap();
    assert!(external_side.metrics_rx.try_recv().is_ok());
    assert!(external_side.action_rx.try_recv().is_err());
}

#[test]
fn closed_inbound_ends_the_loop_only_when_idle() {
    let mut agent = Dreamer::new("S", vec![]);
    assert!(agent.handle_inbound_closed());
    agent.handle_incoming_message("hello".to_string());
    assert!(!agent.handle_inbound_closed());
    agent.handle_model_response("[thought]\ndone").unwrap();
    assert!(agent.handle_inbound_closed());
}
