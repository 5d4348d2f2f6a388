//! The local control socket's command language: one command per request,
//! written as lines.

use vstd::prelude::*;

use crate::text::{chars_of, debug_quote, debug_quoted, decimal, joined, push_str};

verus! {

/// The command that asks for the UI state.
pub const UI_STATE_COMMAND: &'static str = "ui state";

/// The command that presses a UI control; a JSON request follows on the
/// next line.
pub const UI_PRESS_COMMAND: &'static str = "ui press";

/// A line without its final carriage return, when one ends it.
pub open spec fn without_cr(line: Seq<char>) -> Seq<char> {
    if line.len() > 0 && line.last() == '\r' {
        line.drop_last()
    } else {
        line
    }
}

/// Index of the first newline in `s`, if any.
pub open spec fn first_newline(s: Seq<char>) -> Option<int> {
    if exists|i: int| 0 <= i < s.len() && s[i] == '\n' {
        Some(choose|i: int| 0 <= i < s.len() && s[i] == '\n' && forall|k: int| 0 <= k < i ==> s[k] != '\n')
    } else {
        None
    }
}

/// The lines of `s` as `str::lines` yields them: split after each newline,
/// the newline and a carriage return before it removed; a final line ending
/// adds no empty line.
pub open spec fn lines_of(s: Seq<char>) -> Seq<Seq<char>>
    decreases s.len(),
{
    if s.len() == 0 {
        Seq::empty()
    } else {
        match first_newline(s) {
            None => seq![s],
            Some(i) => if 0 <= i < s.len() {
                seq![without_cr(s.subrange(0, i))] + lines_of(s.subrange(i + 1, s.len() as int))
            } else {
                Seq::empty()
            },
        }
    }
}

/// The characters of `s` from `start` to the end, as a vector.
fn tail_chars(s: &Vec<char>, start: usize) -> (t: Vec<char>)
    requires
        start <= s@.len(),
    ensures
        t@ == s@.subrange(start as int, s@.len() as int),
{
    let mut t: Vec<char> = Vec::new();
    let mut i: usize = start;
    while i < s.len()
        invariant
            start <= i <= s@.len(),
            t@ == s@.subrange(start as int, i as int),
        decreases s@.len() - i,
    {
        t.push(s[i]);
        assert(s@.subrange(start as int, i as int + 1) =~= s@.subrange(start as int, i as int).push(
            s@[i as int],
        ));
        i = i + 1;
    }
    t
}

/// Splits `body` into lines as `str::lines` does.
pub fn split_lines(body: &str) -> (lines: Vec<Vec<char>>)
    ensures
        lines@.len() == lines_of(body@).len(),
        forall|i: int| 0 <= i < lines@.len() ==> #[trigger] lines@[i]@ == lines_of(body@)[i],
{
    let mut rest = chars_of(body);
    let mut lines: Vec<Vec<char>> = Vec::new();
    let ghost mut done: Seq<Seq<char>> = Seq::empty();
    while rest.len() > 0
        invariant
            lines@.len() == done.len(),
            forall|i: int| 0 <= i < lines@.len() ==> #[trigger] lines@[i]@ == done[i],
            done + lines_of(rest@) == lines_of(body@),
        decreases rest@.len(),
    {
        let mut i: usize = 0;
        while i < rest.len() && rest[i] != '\n'
            invariant
                i <= rest@.len(),
                forall|k: int| 0 <= k < i ==> rest@[k] != '\n',
            decreases rest@.len() - i,
        {
            i = i + 1;
        }
        let ghost before = rest@;
        let mut line: Vec<char> = Vec::new();
        let mut j: usize = 0;
        while j < i
            invariant
                j <= i <= rest@.len(),
                line@ == rest@.subrange(0, j as int),
            decreases i - j,
        {
            line.push(rest[j]);
            assert(rest@.subrange(0, j as int + 1) =~= rest@.subrange(0, j as int).push(
                rest@[j as int],
            ));
            j = j + 1;
        }
        if i == rest.len() {
            assert(first_newline(before) is None);
            assert(lines_of(before) == seq![before]);
            assert(line@ =~= before);
            proof {
                done = done.push(line@);
            }
            lines.push(line);
            rest = Vec::new();
            assert(lines_of(rest@) =~= Seq::<Seq<char>>::empty());
            assert(done + lines_of(rest@) =~= done);
        } else {
            assert(before[i as int] == '\n');
            let ghost fi = first_newline(before);
            assert(fi == Some(i as int)) by {
                assert(exists|k: int| 0 <= k < before.len() && before[k] == '\n');
                let c = choose|k: int|
                    0 <= k < before.len() && before[k] == '\n' && forall|m: int|
                        0 <= m < k ==> before[m] != '\n';
                assert(0 <= i < before.len() && before[i as int] == '\n' && forall|m: int|
                    0 <= m < i ==> before[m] != '\n');
                if c < i {
                } else if c > i {
                }
            }
            if line.len() > 0 && line[line.len() - 1] == '\r' {
                line.pop();
            }
            assert(line@ =~= without_cr(before.subrange(0, i as int)));
            let next = tail_chars(&rest, i + 1);
            proof {
                assert(lines_of(before) == seq![without_cr(before.subrange(0, i as int))]
                    + lines_of(before.subrange(i + 1, before.len() as int)));
                assert(done + lines_of(before) =~= done.push(line@) + lines_of(next@));
                done = done.push(line@);
            }
            lines.push(line);
            rest = next;
        }
    }
    assert(lines_of(rest@) =~= Seq::<Seq<char>>::empty());
    assert(done =~= lines_of(body@));
    lines
}

/// A request made over the control socket.
#[derive(Debug, Clone, PartialEq, Eq)]
pub enum ControlCommand {
    /// Save a screenshot to this path.
    Screenshot { output: String },
    /// Report the runtime diagnostics.
    Status,
    /// Report the UI state.
    UiState,
    /// Press a UI control; the JSON request.
    UiPress(String),
    /// Start the host's benchmark.
    HostBenchmark,
}

/// Why a request was refused.
#[derive(Debug, Clone, PartialEq, Eq)]
pub enum CommandParseError {
    /// A plain error message.
    Legacy(String),
    /// A refused UI press, reported as an invalid request.
    InvalidPress(String),
}

/// The command a request body holds, or why it holds none.
pub open spec fn parsed_command(body: Seq<char>) -> Result<ControlCommandView, CommandErrorView> {
    let lines = lines_of(body);
    if lines.len() == 0 {
        Err(CommandErrorView::Legacy("empty command"@))
    } else {
        let first = lines[0];
        if first == "screenshot"@ {
            if lines.len() < 2 {
                Err(CommandErrorView::Legacy("missing screenshot output path"@))
            } else if lines[1].len() == 0 {
                Err(CommandErrorView::Legacy("screenshot output path must not be empty"@))
            } else if lines.len() > 2 {
                Err(CommandErrorView::Legacy("too many command lines"@))
            } else {
                Ok(ControlCommandView::Screenshot(lines[1]))
            }
        } else if first == "status"@ || first == UI_STATE_COMMAND@ || first == "host benchmark"@ {
            if lines.len() > 1 {
                Err(CommandErrorView::Legacy("too many command lines"@))
            } else if first == "status"@ {
                Ok(ControlCommandView::Status)
            } else if first == UI_STATE_COMMAND@ {
                Ok(ControlCommandView::UiState)
            } else {
                Ok(ControlCommandView::HostBenchmark)
            }
        } else if first == UI_PRESS_COMMAND@ {
            if lines.len() < 2 {
                Err(CommandErrorView::InvalidPress("ui press requires a JSON request on the second line"@))
            } else if lines.len() > 2 {
                Err(CommandErrorView::InvalidPress("ui press accepts exactly one JSON request line"@))
            } else {
                Ok(ControlCommandView::UiPress(lines[1]))
            }
        } else {
            Err(CommandErrorView::Legacy("unknown command "@ + debug_quoted(first)))
        }
    }
}

/// A command, its text fields as character sequences.
pub ghost enum ControlCommandView {
    Screenshot(Seq<char>),
    Status,
    UiState,
    UiPress(Seq<char>),
    HostBenchmark,
}

/// A refusal, its message as a character sequence.
pub ghost enum CommandErrorView {
    Legacy(Seq<char>),
    InvalidPress(Seq<char>),
}

/// The view of a parse result.
pub open spec fn command_view(r: Result<ControlCommand, CommandParseError>) -> Result<ControlCommandView, CommandErrorView> {
    match r {
        Ok(ControlCommand::Screenshot { output }) => Ok(ControlCommandView::Screenshot(output@)),
        Ok(ControlCommand::Status) => Ok(ControlCommandView::Status),
        Ok(ControlCommand::UiState) => Ok(ControlCommandView::UiState),
        Ok(ControlCommand::UiPress(payload)) => Ok(ControlCommandView::UiPress(payload@)),
        Ok(ControlCommand::HostBenchmark) => Ok(ControlCommandView::HostBenchmark),
        Err(CommandParseError::Legacy(m)) => Err(CommandErrorView::Legacy(m@)),
        Err(CommandParseError::InvalidPress(m)) => Err(CommandErrorView::InvalidPress(m@)),
    }
}

fn legacy(message: &str) -> (e: CommandParseError)
    ensures
        e == CommandParseError::Legacy(e->Legacy_0) && e->Legacy_0@ == message@,
{
    CommandParseError::Legacy(crate::text::owned(message))
}

fn invalid_press(message: &str) -> (e: CommandParseError)
    ensures
        e == CommandParseError::InvalidPress(e->InvalidPress_0) && e->InvalidPress_0@ == message@,
{
    CommandParseError::InvalidPress(crate::text::owned(message))
}

/// Reads the command in a request body. A `ui press` body yields its request
/// line as it stands: the JSON request type lives outside this library, so
/// the caller decodes that line and passes the outcome to
/// `ui_press_command`, which refuses a line that does not decode.
pub fn parse_command(body: &str) -> (r: Result<ControlCommand, CommandParseError>)
    ensures
        command_view(r) == parsed_command(body@),
{
    let lines = split_lines(body);
    if lines.len() == 0 {
        return Err(legacy("empty command"));
    }
    let first = crate::text::string_from(lines[0].as_slice());
    let f = first.as_str();
    if crate::text::str_equal(f, "screenshot") {
        if lines.len() < 2 {
            return Err(legacy("missing screenshot output path"));
        }
        if lines[1].len() == 0 {
            return Err(legacy("screenshot output path must not be empty"));
        }
        if lines.len() > 2 {
            return Err(legacy("too many command lines"));
        }
        return Ok(ControlCommand::Screenshot { output: crate::text::string_from(lines[1].as_slice()) });
    }
    let status = crate::text::str_equal(f, "status");
    let ui_state = crate::text::str_equal(f, UI_STATE_COMMAND);
    let benchmark = crate::text::str_equal(f, "host benchmark");
    if status || ui_state || benchmark {
        if lines.len() > 1 {
            return Err(legacy("too many command lines"));
        }
        return Ok(
            if status {
                ControlCommand::Status
            } else if ui_state {
                ControlCommand::UiState
            } else {
                ControlCommand::HostBenchmark
            },
        );
    }
    if crate::text::str_equal(f, UI_PRESS_COMMAND) {
        if lines.len() < 2 {
            return Err(invalid_press("ui press requires a JSON request on the second line"));
        }
        if lines.len() > 2 {
            return Err(invalid_press("ui press accepts exactly one JSON request line"));
        }
        return Ok(ControlCommand::UiPress(crate::text::string_from(lines[1].as_slice())));
    }
    let quoted = debug_quote(f);
    let mut message = String::new();
    push_str(&mut message, "unknown command ");
    push_str(&mut message, quoted.as_str());
    Err(CommandParseError::Legacy(message))
}

/// Completes a `ui press` command once its request line has been decoded: a
/// decoded request is the request to act on; a line that did not decode is
/// refused at once as an invalid request, with the decoder's message.
pub fn ui_press_command<R>(decoded: Result<R, String>) -> (r: Result<R, CommandParseError>)
    ensures
        match decoded {
            Ok(request) => r == Ok::<R, CommandParseError>(request),
            Err(message) => r matches Err(CommandParseError::InvalidPress(text)) && text@ == message@,
        },
{
    match decoded {
        Ok(request) => Ok(request),
        Err(message) => Err(CommandParseError::InvalidPress(message)),
    }
}

/// A reply line: `ok` or `error`, then the message.
pub fn response_line(ok: bool, message: &str) -> (line: String)
    ensures
        line@ == (if ok { "ok "@ } else { "error "@ }) + message@ + "\n"@,
{
    let mut line = String::new();
    push_str(&mut line, if ok { "ok " } else { "error " });
    push_str(&mut line, message);
    push_str(&mut line, "\n");
    line
}

/// Why a UI press was refused.
#[derive(Debug, Clone, Copy, PartialEq, Eq, Structural)]
pub enum PressFailureCode {
    /// The UI shows another screen than the request expected.
    WrongScreen,
    /// The UI changed since the revision the request expected.
    StaleRevision,
    /// The screen offers no such action.
    ActionUnavailable,
}

/// The refusal of a press of `action` when the UI shows `screen` at
/// `revision` offering `actions`, or `None` when the press may go ahead. The
/// screen is checked first, then the revision, then the action.
pub open spec fn press_refusal(
    expected_screen: Option<Seq<char>>,
    expected_revision: Option<u64>,
    action: Seq<char>,
    screen: Seq<char>,
    revision: u64,
    actions: Seq<Seq<char>>,
) -> Option<(PressFailureCode, Seq<char>)> {
    if expected_screen matches Some(expected) && expected != screen {
        Some((
            PressFailureCode::WrongScreen,
            "expected screen "@ + expected_screen->0 + ", but current screen is "@ + screen
                + "; inspect `spacewars-cli ui state` and retry"@,
        ))
    } else if expected_revision matches Some(expected) && expected != revision {
        Some((
            PressFailureCode::StaleRevision,
            "expected UI revision "@ + decimal(expected_revision->0 as nat)
                + ", but current revision is "@ + decimal(revision as nat)
                + "; inspect `spacewars-cli ui state` and retry"@,
        ))
    } else if !actions.contains(action) {
        Some((
            PressFailureCode::ActionUnavailable,
            "action "@ + action + " is unavailable on "@ + screen + "; available actions: "@ + if actions.len()
                == 0 {
                "none"@
            } else {
                joined(actions, ", "@)
            },
        ))
    } else {
        None
    }
}

/// The view of an optional string.
pub open spec fn optional_text(s: Option<&str>) -> Option<Seq<char>> {
    match s {
        Some(t) => Some(t@),
        None => None,
    }
}

/// Checks a UI press against the state the UI shows: the screen and the
/// revision the request expects, if any, and the action among those offered.
/// Screens and actions are given by their names.
pub fn validate_ui_press(
    expected_screen: Option<&str>,
    expected_revision: Option<u64>,
    action: &str,
    screen: &str,
    revision: u64,
    actions: &Vec<String>,
) -> (r: Result<(), (PressFailureCode, String)>)
    ensures
        match r {
            Ok(()) => press_refusal(
                optional_text(expected_screen),
                expected_revision,
                action@,
                screen@,
                revision,
                actions@.map_values(|a: String| a@),
            ) is None,
            Err((code, message)) => press_refusal(
                optional_text(expected_screen),
                expected_revision,
                action@,
                screen@,
                revision,
                actions@.map_values(|a: String| a@),
            ) == Some((code, message@)),
        },
{
    let ghost names = actions@.map_values(|a: String| a@);
    match expected_screen {
        Some(expected) => {
            if !crate::text::str_equal(expected, screen) {
                let mut message = String::new();
                push_str(&mut message, "expected screen ");
                push_str(&mut message, expected);
                push_str(&mut message, ", but current screen is ");
                push_str(&mut message, screen);
                push_str(&mut message, "; inspect `spacewars-cli ui state` and retry");
                return Err((PressFailureCode::WrongScreen, message));
            }
        },
        None => {},
    }
    match expected_revision {
        Some(expected) => {
            if expected != revision {
                let mut message = String::new();
                push_str(&mut message, "expected UI revision ");
                crate::text::push_decimal(&mut message, expected as u128);
                push_str(&mut message, ", but current revision is ");
                crate::text::push_decimal(&mut message, revision as u128);
                push_str(&mut message, "; inspect `spacewars-cli ui state` and retry");
                return Err((PressFailureCode::StaleRevision, message));
            }
        },
        None => {},
    }
    let mut i: usize = 0;
    while i < actions.len()
        invariant
            i <= actions@.len(),
            names == actions@.map_values(|a: String| a@),
            forall|k: int| 0 <= k < i ==> names[k] != action@,
            expected_screen matches Some(e) ==> e@ == screen@,
            expected_revision matches Some(e) ==> e == revision,
        decreases actions@.len() - i,
    {
        if crate::text::str_equal(actions[i].as_str(), action) {
            assert(names[i as int] == action@);
            assert(names.contains(action@));
            return Ok(());
        }
        i = i + 1;
    }
    assert(!names.contains(action@));
    let mut message = String::new();
    push_str(&mut message, "action ");
    push_str(&mut message, action);
    push_str(&mut message, " is unavailable on ");
    push_str(&mut message, screen);
    push_str(&mut message, "; available actions: ");
    if actions.len() == 0 {
        push_str(&mut message, "none");
    } else {
        let list = crate::text::join_strings(actions, ", ");
        push_str(&mut message, list.as_str());
    }
    Err((PressFailureCode::ActionUnavailable, message))
}

/// A refused UI press: why, the message for the client, and the UI state at
/// the time, which the client inspects before it retries.
pub struct PressRefusal<S> {
    pub code: PressFailureCode,
    pub message: String,
    pub current_state: Option<S>,
}

/// Checks a UI press as `validate_ui_press` does, against the UI `state`
/// whose screen, revision and offered actions are given by their names; a
/// refusal carries that state along.
pub fn check_ui_press<S>(
    expected_screen: Option<&str>,
    expected_revision: Option<u64>,
    action: &str,
    screen: &str,
    revision: u64,
    actions: &Vec<String>,
    state: S,
) -> (r: Result<(), PressRefusal<S>>)
    ensures
        match r {
            Ok(()) => press_refusal(
                optional_text(expected_screen),
                expected_revision,
                action@,
                screen@,
                revision,
                actions@.map_values(|a: String| a@),
            ) is None,
            Err(refusal) => press_refusal(
                optional_text(expected_screen),
                expected_revision,
                action@,
                screen@,
                revision,
                actions@.map_values(|a: String| a@),
            ) == Some((refusal.code, refusal.message@)) && refusal.current_state == Some(state),
        },
{
    match validate_ui_press(expected_screen, expected_revision, action, screen, revision, actions) {
        Ok(()) => Ok(()),
        Err((code, message)) => Err(PressRefusal { code, message, current_state: Some(state) }),
    }
}

/// Numbers the states the UI reports: the revision moves on exactly when the
/// observed state differs from the one observed before. An observation is
/// given in a canonical encoding, equal exactly when the states are.
pub struct UiRevisionTracker {
    revision: u64,
    last: Option<Vec<u8>>,
}

impl UiRevisionTracker {
    pub closed spec fn revision_spec(&self) -> u64 {
        self.revision
    }

    /// The encoding of the last observation, if any.
    pub closed spec fn last_spec(&self) -> Option<Seq<u8>> {
        match self.last {
            Some(bytes) => Some(bytes@),
            None => None,
        }
    }

    /// Nothing observed yet: revision 0.
    pub fn new() -> (tracker: Self)
        ensures
            tracker.revision_spec() == 0,
            tracker.last_spec() is None,
    {
        UiRevisionTracker { revision: 0, last: None }
    }

    /// Records an observation and returns the revision it is reported
    /// under: the same as before when it equals the last observation,
    /// otherwise the next one (which stays at `u64::MAX` once reached).
    pub fn observe(&mut self, observation: &[u8]) -> (revision: u64)
        ensures
            final(self).last_spec() == Some(observation@),
            revision == final(self).revision_spec(),
            old(self).last_spec() == Some(observation@) ==> revision == old(self).revision_spec(),
            old(self).last_spec() != Some(observation@) ==> revision == if old(self).revision_spec()
                == u64::MAX {
                u64::MAX
            } else {
                (old(self).revision_spec() + 1) as u64
            },
    {
        let same = match &self.last {
            Some(last) => crate::text::bytes_equal(last.as_slice(), observation),
            None => false,
        };
        if !same {
            self.revision = self.revision.saturating_add(1);
            self.last = Some(crate::video::copy_u8s(observation));
        }
        self.revision
    }
}

} // verus!
