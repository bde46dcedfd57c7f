use command_strike::prompt::{
    build_history_context, command_prompt, interpretation_prompt, HistoryItem, COMMAND_SYSTEM,
    INTERPRET_SYSTEM,
};

fn item(n: u32) -> HistoryItem {
    HistoryItem {
        user_input: format!("req{}", n),
        command: format!("cmd{}", n),
        result: format!("res{}", n),
    }
}

#[test]
fn history_empty_gives_sentinel() {
    assert_eq!(build_history_context(&[]), "No previous interaction history.");
}

#[test]
fn history_single_item() {
    assert_eq!(
        build_history_context(&[item(1)]),
        "Here are some previous interactions:\n\nRequest 1: req1\nCommand: cmd1\nResult: res1\n\n"
    );
}

#[test]
fn history_keeps_three_newest_first() {
    let h: Vec<HistoryItem> = (1..=5).map(item).collect();
    let ctx = build_history_context(&h);
    assert_eq!(
        ctx,
        "Here are some previous interactions:\n\n\
         Request 1: req5\nCommand: cmd5\nResult: res5\n\n\
         Request 2: req4\nCommand: cmd4\nResult: res4\n\n\
         Request 3: req3\nCommand: cmd3\nResult: res3\n\n"
    );
    assert!(!ctx.contains("req2"));
    assert!(!ctx.contains("req1"));
}

#[test]
fn history_older_items_do_not_matter() {
    let long: Vec<HistoryItem> = (1..=9).map(item).collect();
    let short: Vec<HistoryItem> = (7..=9).map(item).collect();
    assert_eq!(build_history_context(&long), build_history_context(&short));
}

#[test]
fn command_prompt_embeds_request_and_history() {
    let p = command_prompt("scan the subnet", &[]);
    assert_eq!(p.system, COMMAND_SYSTEM);
    assert_eq!(
        p.user,
        "Generate a shell command that accomplishes the following security task:\n\n\
         scan the subnet\n\nNo previous interaction history."
    );
}

#[test]
fn interpretation_prompt_without_history() {
    let p = interpretation_prompt("22/tcp open ssh", &[]);
    assert_eq!(p.system, INTERPRET_SYSTEM);
    assert_eq!(
        p.user,
        "No command context available.Here is the result of the command execution:\n\n\
         22/tcp open ssh\n\nPlease provide a detailed interpretation of these results from a security perspective."
    );
}

#[test]
fn interpretation_prompt_recalls_latest_exchange() {
    let p = interpretation_prompt("out", &[item(1), item(2)]);
    assert_eq!(
        p.user,
        "For the request: req2\nThe following command was executed: cmd2\n\n\
         Here is the result of the command execution:\n\nout\n\n\
         Please provide a detailed interpretation of these results from a security perspective."
    );
}
