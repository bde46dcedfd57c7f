use command_strike::prompt::{explanation_prompt, EXPLAIN_SYSTEM};
use command_strike::session::{
    classify_input, confirms, follow_up, menu_choice, simulated_output, FollowUp, InputCommand,
    MenuChoice,
};

#[test]
fn input_words_are_recognized() {
    assert_eq!(classify_input("  \n"), InputCommand::Empty);
    assert_eq!(classify_input("exit\n"), InputCommand::Exit);
    assert_eq!(classify_input("quit"), InputCommand::Exit);
    assert_eq!(classify_input(" switch "), InputCommand::SwitchModel);
    assert_eq!(classify_input("model"), InputCommand::SwitchModel);
    assert_eq!(classify_input("help"), InputCommand::Help);
    assert_eq!(classify_input("models"), InputCommand::ListModels);
    assert_eq!(classify_input("templates"), InputCommand::Templates);
    assert_eq!(classify_input("scan ports on 10.0.0.1"), InputCommand::Request);
    assert_eq!(classify_input("Exit"), InputCommand::Request);
}

#[test]
fn menu_numbers_pick_models() {
    assert_eq!(menu_choice("1\n", 6), MenuChoice::Recommended(0));
    assert_eq!(menu_choice(" 6 ", 6), MenuChoice::Recommended(5));
    assert_eq!(menu_choice("+2", 6), MenuChoice::Recommended(1));
    assert_eq!(menu_choice("007", 6), MenuChoice::Custom);
    assert_eq!(menu_choice("7", 6), MenuChoice::Custom);
}

#[test]
fn menu_refuses_other_answers() {
    assert_eq!(menu_choice("0", 6), MenuChoice::Invalid);
    assert_eq!(menu_choice("8", 6), MenuChoice::Invalid);
    assert_eq!(menu_choice("", 6), MenuChoice::Invalid);
    assert_eq!(menu_choice("+", 6), MenuChoice::Invalid);
    assert_eq!(menu_choice("-1", 6), MenuChoice::Invalid);
    assert_eq!(menu_choice("2a", 6), MenuChoice::Invalid);
    assert_eq!(menu_choice("99999999999999999999999999", 6), MenuChoice::Invalid);
}

#[test]
fn yes_answers() {
    assert!(confirms("y\n"));
    assert!(confirms(" Y "));
    assert!(!confirms("yes"));
    assert!(!confirms("n"));
}

#[test]
fn follow_up_choices() {
    assert_eq!(follow_up("1\n"), FollowUp::Simulate);
    assert_eq!(follow_up("2"), FollowUp::Explain);
    assert_eq!(follow_up("3"), FollowUp::Skip);
    assert_eq!(follow_up("x"), FollowUp::Skip);
}

#[test]
fn simulated_output_text() {
    assert_eq!(
        simulated_output("id"),
        "Command 'id' executed successfully.\nThis is simulated output - in a real implementation, the command would be executed with proper safeguards."
    );
}

#[test]
fn explanation_prompt_text() {
    let p = explanation_prompt("ls -la");
    assert_eq!(p.system, EXPLAIN_SYSTEM);
    assert_eq!(p.user, "Explain in detail what this command does and its security implications: ls -la");
}
