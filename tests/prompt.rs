use asterisk::context::ContextMessage;
use asterisk::prompt::{Prompt, PromptMessage, Role};
use asterisk::protocol::ThreadMessage;
use asterisk::thread::Thread;

#[test]
fn test_model_prompt() {
    let mut prompt = Prompt::new();
    prompt.push(PromptMessage::system(
        &["You are a helpful Japanese assistant.", "You should always answer in Japanese."].join("\n"),
    ));
    prompt.push(PromptMessage::user("What is the weather in Tokyo?"));
    prompt.push(PromptMessage::assistant("The weather in Tokyo is sunny."));

    assert_eq!(prompt.len(), 3);
    assert_eq!(
        prompt.messages()[0],
        PromptMessage::system(
            "You are a helpful Japanese assistant.\nYou should always answer in Japanese."
        )
    );
    assert_eq!(
        prompt.messages()[1],
        PromptMessage::user("What is the weather in Tokyo?")
    );
    assert_eq!(
        prompt.messages()[2],
        PromptMessage::assistant("The weather in Tokyo is sunny.")
    );
}

#[test]
fn prompt_push_pop_and_empty() {
    let mut prompt = Prompt::default();
    assert!(prompt.is_empty());
    assert!(prompt.pop().is_none());
    prompt.add_message(PromptMessage::user("a"));
    prompt.push(PromptMessage::assistant("b"));
    assert_eq!(prompt.len(), 2);
    assert_eq!(prompt.pop(), Some(PromptMessage::assistant("b")));
    assert_eq!(prompt.len(), 1);
    assert!(!prompt.is_empty());
    assert_ne!(PromptMessage::user("a"), PromptMessage::assistant("a"));
    assert_eq!(prompt.into_messages(), vec![PromptMessage::user("a")]);
}

#[test]
fn thread_flattens_in_order_with_context_last() {
    let mut thread = Thread::new("S");
    thread.push_message(ThreadMessage::thought("m1"));
    thread.update_context(ContextMessage::new("old context"));
    thread.push_message(ThreadMessage::action("m2"));
    thread.update_context(ContextMessage::new("C"));
    let prompt = thread.to_prompt();
    assert_eq!(prompt.len(), 4);
    assert_eq!(
        prompt.messages(),
        &vec![
            PromptMessage::system("S"),
            PromptMessage::assistant("[thought]\nm1"),
            PromptMessage::assistant("[action]\nm2"),
            PromptMessage::assistant("[context]\nC"),
        ]
    );
    assert_eq!(thread.history_len(), 2);
    assert_eq!(thread.into_prompt().len(), 4);
}

#[test]
fn thread_without_context_flattens_into_three_turns() {
    let mut thread = Thread::new("S");
    thread.push_message(ThreadMessage::notification("m1"));
    thread.push_message(ThreadMessage::observation("m2"));
    let prompt = thread.clone().into_prompt();
    assert_eq!(prompt.len(), 3);
    assert_eq!(prompt.messages()[0].role(), Role::System);
    assert_eq!(prompt.messages()[0].content(), "S");
    assert_eq!(prompt.messages()[1].content(), "[notification]\nm1");
    assert_eq!(prompt.messages()[2].content(), "[observation]\nm2");
    assert_eq!(prompt.messages()[2].role(), Role::Assistant);
    assert!(thread.context().is_none());
    assert_eq!(thread.system_instruction(), "S");
}

#[test]
fn empty_thread_flattens_into_the_system_turn() {
    let prompt = Thread::new("").into_prompt();
    assert_eq!(prompt.into_messages(), vec![PromptMessage::system("")]);
}
