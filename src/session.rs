use vstd::prelude::*;
use crate::text::{chars_of, trim, trim_text};

verus! {

/// What a line typed at the assistant's prompt asks for.
#[derive(Debug, Clone, Copy, PartialEq, Eq)]
pub enum InputCommand {
    Empty,
    Exit,
    SwitchModel,
    Help,
    ListModels,
    Templates,
    /// A security request in natural language.
    Request,
}

/// The entry picked in the model menu.
#[derive(Debug, Clone, Copy, PartialEq, Eq)]
pub enum MenuChoice {
    /// The recommended model at this position, counting from zero.
    Recommended(usize),
    /// The entry after the recommended models: a name typed by hand.
    Custom,
    Invalid,
}

/// What to do with a generated command.
#[derive(Debug, Clone, Copy, PartialEq, Eq)]
pub enum FollowUp {
    Simulate,
    Explain,
    Skip,
}

pub open spec fn input_command(t: Seq<char>) -> InputCommand {
    if t.len() == 0 {
        InputCommand::Empty
    } else if t == "exit"@ || t == "quit"@ {
        InputCommand::Exit
    } else if t == "switch"@ || t == "model"@ {
        InputCommand::SwitchModel
    } else if t == "help"@ {
        InputCommand::Help
    } else if t == "models"@ {
        InputCommand::ListModels
    } else if t == "templates"@ {
        InputCommand::Templates
    } else {
        InputCommand::Request
    }
}

pub open spec fn is_digit(c: char) -> bool {
    '0' <= c && c <= '9'
}

pub open spec fn all_digits(s: Seq<char>) -> bool {
    forall|i: int| 0 <= i < s.len() ==> is_digit(#[trigger] s[i])
}

/// The number a string of decimal digits writes.
pub open spec fn decimal_value(s: Seq<char>) -> int
    decreases s.len(),
{
    if s.len() == 0 {
        0
    } else {
        10 * decimal_value(s.drop_last()) + (s.last() as int - '0' as int)
    }
}

/// The digits of a menu answer: the trimmed text, without one leading `+`.
pub open spec fn unsigned_part(t: Seq<char>) -> Seq<char> {
    if t.len() > 0 && t[0] == '+' {
        t.drop_first()
    } else {
        t
    }
}

/// The menu entry an answer picks when `count` models are recommended:
/// entries are numbered from 1, the one numbered `count + 1` is the custom
/// name, and anything that is not a number in range is refused.
pub open spec fn menu_choice_of(t: Seq<char>, count: int) -> MenuChoice {
    let d = unsigned_part(t);
    if d.len() == 0 || !all_digits(d) {
        MenuChoice::Invalid
    } else if 1 <= decimal_value(d) <= count {
        MenuChoice::Recommended((decimal_value(d) - 1) as usize)
    } else if decimal_value(d) == count + 1 {
        MenuChoice::Custom
    } else {
        MenuChoice::Invalid
    }
}

pub open spec fn follow_up_of(t: Seq<char>) -> FollowUp {
    if t == "1"@ {
        FollowUp::Simulate
    } else if t == "2"@ {
        FollowUp::Explain
    } else {
        FollowUp::Skip
    }
}

fn same_text(a: &str, b: &str) -> (r: bool)
    ensures
        r == (a@ == b@),
{
    String::from_str(a) == String::from_str(b)
}

/// Reads a line typed at the assistant's prompt.
pub fn classify_input(line: &str) -> (r: InputCommand)
    ensures
        r == input_command(trim(line@)),
{
    let t = trim_text(line);
    let s = t.as_str();
    if s.is_empty() {
        InputCommand::Empty
    } else if same_text(s, "exit") || same_text(s, "quit") {
        InputCommand::Exit
    } else if same_text(s, "switch") || same_text(s, "model") {
        InputCommand::SwitchModel
    } else if same_text(s, "help") {
        InputCommand::Help
    } else if same_text(s, "models") {
        InputCommand::ListModels
    } else if same_text(s, "templates") {
        InputCommand::Templates
    } else {
        InputCommand::Request
    }
}

proof fn lemma_decimal_value_nonneg(s: Seq<char>)
    requires
        all_digits(s),
    ensures
        0 <= decimal_value(s),
    decreases s.len(),
{
    if s.len() > 0 {
        lemma_decimal_value_nonneg(s.drop_last());
    }
}

/// Reads an answer to the model menu, which lists `count` recommended
/// models followed by the custom entry.
pub fn menu_choice(line: &str, count: usize) -> (r: MenuChoice)
    requires
        count < usize::MAX,
    ensures
        r == menu_choice_of(trim(line@), count as int),
{
    let t = trim_text(line);
    let v = chars_of(t.as_str());
    let n = v.len();
    let start: usize = if n > 0 && v[0] == '+' {
        1
    } else {
        0
    };
    let ghost d = unsigned_part(t@);
    assert(d =~= v@.subrange(start as int, n as int));
    if start == n {
        return MenuChoice::Invalid;
    }
    let limit: u128 = count as u128 + 1;
    // `value` is exact until it passes `limit`; after that only "too large" matters.
    let mut value: u128 = 0;
    let mut over = false;
    let mut i = start;
    while i < n
        invariant
            start <= i <= n == v@.len(),
            v@ == t@,
            t@ == trim(line@),
            d == unsigned_part(t@),
            d == v@.subrange(start as int, n as int),
            limit == count + 1,
            count < usize::MAX,
            all_digits(v@.subrange(start as int, i as int)),
            !over ==> value == decimal_value(v@.subrange(start as int, i as int)),
            !over ==> value <= limit,
            over ==> decimal_value(v@.subrange(start as int, i as int)) > limit,
        decreases n - i,
    {
        let c = v[i];
        if !('0' <= c && c <= '9') {
            assert(d[i - start] == c);
            assert(!is_digit(d[i - start]));
            return MenuChoice::Invalid;
        }
        let ghost prev = v@.subrange(start as int, i as int);
        let ghost next = v@.subrange(start as int, i + 1);
        assert(next.drop_last() =~= prev);
        assert(all_digits(next));
        proof {
            lemma_decimal_value_nonneg(prev);
        }
        let digit = (c as u32 - '0' as u32) as u128;
        if !over {
            value = value * 10 + digit;
            if value > limit {
                over = true;
            }
        }
        i = i + 1;
    }
    if over {
        MenuChoice::Invalid
    } else if 1 <= value && value <= count as u128 {
        MenuChoice::Recommended((value - 1) as usize)
    } else if value == limit {
        MenuChoice::Custom
    } else {
        MenuChoice::Invalid
    }
}

/// Whether an answer to a yes/no question is yes: `y` or `Y`.
pub fn confirms(line: &str) -> (r: bool)
    ensures
        r == (trim(line@) == "y"@ || trim(line@) == "Y"@),
{
    let t = trim_text(line);
    same_text(t.as_str(), "y") || same_text(t.as_str(), "Y")
}

/// Reads the choice made after a command was generated.
pub fn follow_up(line: &str) -> (r: FollowUp)
    ensures
        r == follow_up_of(trim(line@)),
{
    let t = trim_text(line);
    if same_text(t.as_str(), "1") {
        FollowUp::Simulate
    } else if same_text(t.as_str(), "2") {
        FollowUp::Explain
    } else {
        FollowUp::Skip
    }
}

/// The output reported for a command whose execution is only simulated.
pub fn simulated_output(command: &str) -> (r: String)
    ensures
        r@ == "Command '"@ + command@ + "' executed successfully.\nThis is simulated output - in a real implementation, the command would be executed with proper safeguards."@,
{
    let mut r = String::from_str("Command '");
    r.append(command);
    r.append(
        "' executed successfully.\nThis is simulated output - in a real implementation, the command would be executed with proper safeguards.",
    );
    r
}

} // verus!
