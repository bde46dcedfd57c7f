use vstd::prelude::*;

verus! {

/// One past exchange: what was asked, the command produced, and its output.
#[derive(Debug, Clone)]
pub struct HistoryItem {
    pub user_input: String,
    pub command: String,
    pub result: String,
}

/// A system instruction and the user-facing prompt sent with it.
#[derive(Debug, Clone)]
pub struct Prompt {
    pub system: String,
    pub user: String,
}

/// How many past exchanges a prompt recalls at most.
pub const HISTORY_CAP: usize = 3;

pub const NO_HISTORY: &'static str = "No previous interaction history.";

pub const HISTORY_HEADER: &'static str = "Here are some previous interactions:\n\n";

pub const NO_COMMAND_CONTEXT: &'static str = "No command context available.";

pub const COMMAND_TASK: &'static str =
    "Generate a shell command that accomplishes the following security task:\n\n";

pub const RESULT_HEADER: &'static str = "Here is the result of the command execution:\n\n";

pub const RESULT_REQUEST: &'static str =
    "\n\nPlease provide a detailed interpretation of these results from a security perspective.";

pub const COMMAND_SYSTEM: &'static str = "You are CommandStrike, an advanced cybersecurity assistant specializing in CTF challenges and security assessments.

Your task is to translate natural language security requests into precise shell commands.

Guidelines:
1. Generate ONLY the exact command that should be run, with no explanations or markdown
2. Ensure the command is appropriate for security testing purposes
3. Use appropriate flags and options for comprehensive results
4. Follow security best practices for command construction
5. For complex operations, use command chaining, pipes, or multi-step commands as needed
6. Consider common security tools like nmap, hydra, gobuster, hashcat, metasploit when applicable
7. Provide commands for information gathering, vulnerability scanning, and exploitation as requested
8. Never include destructive commands unless explicitly asked to create a demo environment
9. When analyzing files or directories, use the context from previous commands

For reconnaissance and scanning:
- Be thorough with port scanning parameters
- Include service version detection when relevant
- Use appropriate wordlists for directory/file enumeration
- Consider output formatting for readability

For exploitation and testing:
- Use parameterized commands where variables might be needed
- Include proper error handling and output redirection
- Consider rate limiting to avoid detection
- Use appropriate encoding/decoding tools for payloads

Remember: Return ONLY the shell command with no explanation, markdown formatting, or additional text.";

pub const INTERPRET_SYSTEM: &'static str = "You are CommandStrike, an advanced cybersecurity assistant specializing in CTF challenges and security assessments.

Your task is to interpret command output and provide security insights.

Guidelines for your interpretation:
1. Analyze the command output for security implications
2. Identify potential vulnerabilities, attack vectors, or sensitive information
3. Provide context on what the findings mean for security
4. Suggest possible next steps for investigation or exploitation
5. Highlight any interesting or unusual patterns
6. Explain technical details in a clear, accessible way
7. Compare results against common security benchmarks when applicable
8. Identify false positives where relevant

When analyzing scan results:
- Identify open ports and services that might be vulnerable
- Note unusual open ports or unexpected services
- Highlight outdated software versions with known vulnerabilities
- Identify misconfigured services

When analyzing system information:
- Identify privilege escalation paths
- Note sensitive files with improper permissions
- Highlight suspicious processes or connections
- Identify configuration weaknesses

Provide a comprehensive but concise analysis focused on actionable security insights.";

pub const EXPLAIN_SYSTEM: &'static str = "You are CommandStrike, a cybersecurity assistant specializing in CTF challenges. Explain commands in detail, breaking down each part and explaining security implications.";

pub const EXPLAIN_REQUEST: &'static str =
    "Explain in detail what this command does and its security implications: ";

/// The label of the `k`-th recalled exchange, counting from one.
pub open spec fn ordinal(k: int) -> Seq<char> {
    if k == 0 {
        "1"@
    } else if k == 1 {
        "2"@
    } else {
        "3"@
    }
}

/// The exchanges a prompt recalls: the most recent ones, newest first.
pub open spec fn recent(h: Seq<HistoryItem>) -> Seq<HistoryItem> {
    let n = if h.len() < HISTORY_CAP {
        h.len() as int
    } else {
        HISTORY_CAP as int
    };
    Seq::new(n as nat, |i: int| h[h.len() - 1 - i])
}

/// How the `k`-th recalled exchange is written in a prompt.
pub open spec fn history_entry(k: int, item: HistoryItem) -> Seq<char> {
    "Request "@ + ordinal(k) + ": "@ + item.user_input@ + "\nCommand: "@ + item.command@
        + "\nResult: "@ + item.result@ + "\n\n"@
}

/// The first `n` recalled exchanges, written one after the other.
pub open spec fn entries(items: Seq<HistoryItem>, n: nat) -> Seq<char>
    decreases n,
{
    if n == 0 {
        Seq::empty()
    } else {
        entries(items, (n - 1) as nat) + history_entry(n - 1, items[n - 1])
    }
}

/// The history block of a command prompt.
pub open spec fn history_context(h: Seq<HistoryItem>) -> Seq<char> {
    if h.len() == 0 {
        NO_HISTORY@
    } else {
        HISTORY_HEADER@ + entries(recent(h), recent(h).len())
    }
}

/// The user prompt that asks for a command.
pub open spec fn command_prompt_text(request: Seq<char>, h: Seq<HistoryItem>) -> Seq<char> {
    COMMAND_TASK@ + request + "\n\n"@ + history_context(h)
}

/// What an interpretation prompt recalls of the latest exchange.
pub open spec fn command_context(h: Seq<HistoryItem>) -> Seq<char> {
    if h.len() == 0 {
        NO_COMMAND_CONTEXT@
    } else {
        "For the request: "@ + h.last().user_input@ + "\nThe following command was executed: "@
            + h.last().command@ + "\n\n"@
    }
}

/// The user prompt that asks for an interpretation of a command's output.
pub open spec fn interpretation_prompt_text(result: Seq<char>, h: Seq<HistoryItem>) -> Seq<char> {
    command_context(h) + RESULT_HEADER@ + result + RESULT_REQUEST@
}

/// The history block of a prompt recalls at most three exchanges, newest
/// first: older exchanges never change it, and an empty history gives the
/// fixed sentence.
pub proof fn lemma_history_context_bounded(older: Seq<HistoryItem>, h: Seq<HistoryItem>)
    ensures
        recent(h).len() <= HISTORY_CAP,
        recent(h).len() == h.len() || recent(h).len() == HISTORY_CAP,
        forall|i: int| 0 <= i < recent(h).len() ==> recent(h)[i] == h[h.len() - 1 - i],
        h.len() == 0 ==> history_context(h) == NO_HISTORY@,
        h.len() >= HISTORY_CAP ==> history_context(older + h) == history_context(h),
{
    if h.len() >= HISTORY_CAP {
        assert(recent(older + h) =~= recent(h));
    }
}

fn ordinal_label(k: usize) -> (r: &'static str)
    requires
        k < HISTORY_CAP,
    ensures
        r@ == ordinal(k as int),
{
    if k == 0 {
        "1"
    } else if k == 1 {
        "2"
    } else {
        "3"
    }
}

/// Writes the most recent exchanges (at most three, newest first) as a block
/// for a command prompt, or a fixed sentence when there are none.
pub fn build_history_context(history: &[HistoryItem]) -> (r: String)
    ensures
        r@ == history_context(history@),
{
    let n = history.len();
    if n == 0 {
        return String::from_str(NO_HISTORY);
    }
    let ghost items = recent(history@);
    let count = if n < HISTORY_CAP {
        n
    } else {
        HISTORY_CAP
    };
    let mut r = String::from_str(HISTORY_HEADER);
    let mut k: usize = 0;
    while k < count
        invariant
            n == history@.len(),
            count == items.len(),
            count <= HISTORY_CAP,
            count <= n,
            k <= count,
            items == recent(history@),
            r@ == HISTORY_HEADER@ + entries(items, k as nat),
        decreases count - k,
    {
        let item = &history[n - 1 - k];
        assert(*item == items[k as int]);
        r.append("Request ");
        r.append(ordinal_label(k));
        r.append(": ");
        r.append(item.user_input.as_str());
        r.append("\nCommand: ");
        r.append(item.command.as_str());
        r.append("\nResult: ");
        r.append(item.result.as_str());
        r.append("\n\n");
        k = k + 1;
        assert(r@ =~= HISTORY_HEADER@ + entries(items, k as nat));
    }
    r
}

/// The instruction and prompt that ask for one shell command accomplishing
/// `user_input`, recalling the recent history.
pub fn command_prompt(user_input: &str, history: &[HistoryItem]) -> (r: Prompt)
    ensures
        r.system@ == COMMAND_SYSTEM@,
        r.user@ == command_prompt_text(user_input@, history@),
{
    let context = build_history_context(history);
    let mut user = String::from_str(COMMAND_TASK);
    user.append(user_input);
    user.append("\n\n");
    user.append(context.as_str());
    assert(user@ =~= command_prompt_text(user_input@, history@));
    Prompt { system: String::from_str(COMMAND_SYSTEM), user }
}

/// The instruction and prompt that ask for a security reading of a command's
/// output, recalling the latest exchange.
pub fn interpretation_prompt(result: &str, history: &[HistoryItem]) -> (r: Prompt)
    ensures
        r.system@ == INTERPRET_SYSTEM@,
        r.user@ == interpretation_prompt_text(result@, history@),
{
    let n = history.len();
    let mut user = if n == 0 {
        String::from_str(NO_COMMAND_CONTEXT)
    } else {
        let latest = &history[n - 1];
        let mut c = String::from_str("For the request: ");
        c.append(latest.user_input.as_str());
        c.append("\nThe following command was executed: ");
        c.append(latest.command.as_str());
        c.append("\n\n");
        c
    };
    assert(user@ =~= command_context(history@));
    user.append(RESULT_HEADER);
    user.append(result);
    user.append(RESULT_REQUEST);
    assert(user@ =~= interpretation_prompt_text(result@, history@));
    Prompt { system: String::from_str(INTERPRET_SYSTEM), user }
}

/// The instruction and prompt that ask for a detailed explanation of a
/// command, to be streamed back.
pub fn explanation_prompt(command: &str) -> (r: Prompt)
    ensures
        r.system@ == EXPLAIN_SYSTEM@,
        r.user@ == EXPLAIN_REQUEST@ + command@,
{
    let mut user = String::from_str(EXPLAIN_REQUEST);
    user.append(command);
    Prompt { system: String::from_str(EXPLAIN_SYSTEM), user }
}

} // verus!
