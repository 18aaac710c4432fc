//! The loop of the shell, one step at a time: a line of input is split
//! into words, the first word is looked up, and the step says what to do.

use vstd::prelude::*;
use vstd::string::StringExecFns;
use crate::assoc::{lemma_position, lemma_position_is, lemma_put, lookup, position};
use crate::error::{ErrorView, ShellError};
use crate::style::{bold_cyan, paint_bold_cyan, paint_red, painted, red};
use crate::text::{chars_of, is_space, is_whitespace, push_char, same_text, views};

verus! {

/// The length of the word at the start of a text: of its longest prefix
/// without white space.
pub open spec fn word_len(s: Seq<char>) -> int
    decreases s.len(),
{
    if s.len() == 0 || is_space(s[0]) {
        0
    } else {
        1 + word_len(s.skip(1))
    }
}

/// The words of a text: its longest runs of characters that are no white
/// space, in order.
pub open spec fn tokens(s: Seq<char>) -> Seq<Seq<char>>
    decreases s.len(),
    via tokens_decrease
{
    if s.len() == 0 {
        Seq::empty()
    } else if is_space(s[0]) {
        tokens(s.skip(1))
    } else {
        seq![s.take(word_len(s))] + tokens(s.skip(word_len(s)))
    }
}

#[via_fn]
proof fn tokens_decrease(s: Seq<char>) {
    lemma_word_len(s);
}

proof fn lemma_word_len(s: Seq<char>)
    ensures
        0 <= word_len(s) <= s.len(),
        forall|j: int| 0 <= j < word_len(s) ==> !is_space(s[j]),
        word_len(s) < s.len() ==> is_space(s[word_len(s)]),
        s.len() > 0 && !is_space(s[0]) ==> word_len(s) > 0,
    decreases s.len(),
{
    if s.len() != 0 && !is_space(s[0]) {
        lemma_word_len(s.skip(1));
        assert forall|j: int| 0 <= j < word_len(s) implies !is_space(s[j]) by {
            if j > 0 {
                assert(s.skip(1)[j - 1] == s[j]);
            }
        }
        if word_len(s) < s.len() {
            assert(s.skip(1)[word_len(s) - 1] == s[word_len(s)]);
        }
    }
}

/// A word: at least one character, and no white space.
pub open spec fn is_word(w: Seq<char>) -> bool {
    w.len() > 0 && forall|j: int| 0 <= j < w.len() ==> !is_space(w[j])
}

/// Every one of the words of a text is a word.
pub proof fn lemma_tokens_are_words(s: Seq<char>)
    ensures
        forall|i: int| 0 <= i < tokens(s).len() ==> is_word(#[trigger] tokens(s)[i]),
    decreases s.len(),
{
    lemma_word_len(s);
    if s.len() == 0 {
        assert(tokens(s).len() == 0);
    } else if is_space(s[0]) {
        lemma_tokens_are_words(s.skip(1));
        assert(tokens(s) == tokens(s.skip(1)));
    } else {
        lemma_tokens_are_words(s.skip(word_len(s)));
        assert(tokens(s) == seq![s.take(word_len(s))] + tokens(s.skip(word_len(s))));
        let rest = tokens(s.skip(word_len(s)));
        let word = s.take(word_len(s));
        assert(is_word(word));
        assert forall|i: int| 0 <= i < tokens(s).len() implies is_word(
            #[trigger] tokens(s)[i],
        ) by {
            if i > 0 {
                assert(tokens(s)[i] == rest[i - 1]);
            } else {
                assert(tokens(s)[0] == word);
            }
        }
    }
}

/// Splits a line into its words.
pub fn split_words(line: &str) -> (r: Vec<String>)
    ensures
        views(r@) == tokens(line@),
{
    let cs = chars_of(line);
    let mut out: Vec<String> = Vec::new();
    let mut i: usize = 0;
    assert(cs@.skip(0) =~= cs@);
    assert(views(out@) + tokens(cs@) =~= tokens(cs@));
    while i < cs.len()
        invariant
            i <= cs.len(),
            tokens(cs@) == views(out@) + tokens(cs@.skip(i as int)),
        decreases cs.len() - i,
    {
        let ghost rest = cs@.skip(i as int);
        assert(rest[0] == cs@[i as int]);
        if is_whitespace(cs[i]) {
            assert(rest.skip(1) =~= cs@.skip(i as int + 1));
            i += 1;
        } else {
            let start = i;
            let mut word = String::new();
            assert(cs@.subrange(start as int, i as int) =~= Seq::<char>::empty());
            while i < cs.len() && !is_whitespace(cs[i])
                invariant
                    start <= i <= cs.len(),
                    word@ == cs@.subrange(start as int, i as int),
                    word_len(cs@.skip(start as int)) == (i - start) + word_len(
                        cs@.skip(i as int),
                    ),
                decreases cs.len() - i,
            {
                push_char(&mut word, cs[i]);
                proof {
                    let here = cs@.skip(i as int);
                    assert(here[0] == cs@[i as int]);
                    assert(here.skip(1) =~= cs@.skip(i as int + 1));
                    assert(cs@.subrange(start as int, i as int + 1) =~= cs@.subrange(
                        start as int,
                        i as int,
                    ).push(cs@[i as int]));
                }
                i += 1;
            }
            proof {
                let here = cs@.skip(i as int);
                if i < cs.len() {
                    assert(here[0] == cs@[i as int]);
                }
                assert(word_len(here) == 0);
                let w = word_len(rest);
                assert(w == i - start);
                assert(rest.take(w) =~= word@);
                assert(rest.skip(w) =~= here);
            }
            let ghost before = views(out@);
            out.push(word);
            assert(views(out@) =~= before.push(word@));
            assert(views(out@) + tokens(cs@.skip(i as int)) =~= before + (seq![word@] + tokens(
                cs@.skip(i as int),
            )));
        }
    }
    assert(views(out@) + tokens(cs@.skip(cs@.len() as int)) =~= views(out@));
    out
}

/// The builtins of the shell.
#[derive(Clone, Copy, Debug, PartialEq, Eq, Structural)]
pub enum Builtin {
    Cat,
    Cd,
    Clear,
    Cp,
    Echo,
    Ls,
    Mkdir,
    Mv,
    Pwd,
    Rm,
}

/// The table of commands: which builtin a name stands for. A name has at
/// most one builtin; registering it again replaces the earlier one.
pub struct Registry {
    rows: Vec<(String, Builtin)>,
}

/// The names of rows, in their order.
pub open spec fn names_of(rows: Seq<(String, Builtin)>) -> Seq<Seq<char>> {
    Seq::new(rows.len(), |i: int| rows[i].0@)
}

/// The builtins of rows, in their order.
pub open spec fn commands_of(rows: Seq<(String, Builtin)>) -> Seq<Builtin> {
    Seq::new(rows.len(), |i: int| rows[i].1)
}

impl Registry {
    /// The table as a map from name to builtin.
    pub closed spec fn view(&self) -> Map<Seq<char>, Builtin> {
        lookup(names_of(self.rows@), commands_of(self.rows@))
    }

    /// A table without commands.
    pub fn new() -> (r: Registry)
        ensures
            r@ == Map::<Seq<char>, Builtin>::empty(),
    {
        let r = Registry { rows: Vec::new() };
        assert(r@ =~= Map::<Seq<char>, Builtin>::empty());
        r
    }

    fn find(&self, name: &str) -> (p: usize)
        ensures
            p == position(names_of(self.rows@), name@),
            p <= self.rows.len(),
    {
        let mut p: usize = 0;
        while p < self.rows.len() && !same_text(self.rows[p].0.as_str(), name)
            invariant
                p <= self.rows.len(),
                forall|j: int| 0 <= j < p ==> names_of(self.rows@)[j] != name@,
            decreases self.rows.len() - p,
        {
            p += 1;
        }
        proof {
            lemma_position_is(names_of(self.rows@), name@, p as int);
        }
        p
    }

    /// Binds `name` to `command`, in place of what it was bound to.
    pub fn register(&mut self, name: &str, command: Builtin)
        ensures
            final(self)@ == old(self)@.insert(name@, command),
    {
        let p = self.find(name);
        let ghost names = names_of(self.rows@);
        let ghost commands = commands_of(self.rows@);
        proof {
            lemma_put(names, commands, name@, command);
            lemma_position(names, name@);
        }
        let key = String::from_str(name);
        if p < self.rows.len() {
            self.rows.set(p, (key, command));
            assert(names_of(self.rows@) =~= names);
            assert(commands_of(self.rows@) =~= commands.update(p as int, command));
        } else {
            self.rows.push((key, command));
            assert(names_of(self.rows@) =~= names.push(name@));
            assert(commands_of(self.rows@) =~= commands.push(command));
        }
    }

    /// The builtin that `name` is bound to, if it is bound.
    pub fn resolve(&self, name: &str) -> (r: Option<Builtin>)
        ensures
            r == if self@.contains_key(name@) {
                Some(self@[name@])
            } else {
                None
            },
    {
        let p = self.find(name);
        if p < self.rows.len() {
            Some(self.rows[p].1)
        } else {
            None
        }
    }

    /// The table of the shell: every builtin under its name.
    pub fn builtins() -> (r: Registry)
        ensures
            r@ == builtin_table(),
    {
        let mut r = Registry::new();
        r.register("cat", Builtin::Cat);
        r.register("cd", Builtin::Cd);
        r.register("cp", Builtin::Cp);
        r.register("echo", Builtin::Echo);
        r.register("ls", Builtin::Ls);
        r.register("mkdir", Builtin::Mkdir);
        r.register("mv", Builtin::Mv);
        r.register("pwd", Builtin::Pwd);
        r.register("rm", Builtin::Rm);
        r.register("clear", Builtin::Clear);
        r
    }
}

/// The names of the builtins.
pub open spec fn builtin_table() -> Map<Seq<char>, Builtin> {
    Map::<Seq<char>, Builtin>::empty().insert("cat"@, Builtin::Cat).insert(
        "cd"@,
        Builtin::Cd,
    ).insert("cp"@, Builtin::Cp).insert("echo"@, Builtin::Echo).insert("ls"@, Builtin::Ls).insert(
        "mkdir"@,
        Builtin::Mkdir,
    ).insert("mv"@, Builtin::Mv).insert("pwd"@, Builtin::Pwd).insert("rm"@, Builtin::Rm).insert(
        "clear"@,
        Builtin::Clear,
    )
}

/// What the loop does next.
#[derive(Debug, PartialEq, Eq)]
pub enum Step {
    /// The input has ended: say so and leave.
    Finish,
    /// The line was empty: prompt again.
    Idle,
    /// The line asks to leave: do so at once, with success.
    Exit,
    /// Run a builtin on its arguments.
    Run { command: Builtin, args: Vec<String> },
    /// Report a failure and prompt again.
    Fail(ShellError),
}

/// The mathematical content of a `Step`.
pub ghost enum StepView {
    Finish,
    Idle,
    Exit,
    Run { command: Builtin, args: Seq<Seq<char>> },
    Fail(ErrorView),
}

impl View for Step {
    type V = StepView;

    open spec fn view(&self) -> StepView {
        match self {
            Step::Finish => StepView::Finish,
            Step::Idle => StepView::Idle,
            Step::Exit => StepView::Exit,
            Step::Run { command, args } => StepView::Run { command: *command, args: views(args@) },
            Step::Fail(e) => StepView::Fail(e@),
        }
    }
}

/// Whether a step ends the session.
pub open spec fn ends_session(step: StepView) -> bool {
    step is Finish || step is Exit
}

/// The step that a read of `bytes_read` bytes with the text `line`
/// leads to. No byte read is the end of the input. A line without words
/// does nothing. The first word names the command: `exit` leaves, a name
/// of the table runs its builtin on the other words, any other name
/// fails.
pub open spec fn step_of(
    table: Map<Seq<char>, Builtin>,
    bytes_read: usize,
    line: Seq<char>,
) -> StepView {
    let words = tokens(line);
    if bytes_read == 0 {
        StepView::Finish
    } else if words.len() == 0 {
        StepView::Idle
    } else if words[0] == "exit"@ {
        StepView::Exit
    } else if table.contains_key(words[0]) {
        StepView::Run { command: table[words[0]], args: words.skip(1) }
    } else {
        StepView::Fail(ErrorView::CommandNotFound(words[0]))
    }
}

/// One step of the loop: what to do after a read of `bytes_read` bytes
/// that gave `user_input`.
pub fn run_shell(registry: &Registry, bytes_read: usize, user_input: &str) -> (step: Step)
    ensures
        step@ == step_of(registry@, bytes_read, user_input@),
{
    if bytes_read == 0 {
        return Step::Finish;
    }
    let mut words = split_words(user_input);
    if words.len() == 0 {
        return Step::Idle;
    }
    let ghost all = views(words@);
    let name = words.remove(0);
    assert(views(words@) =~= all.skip(1));
    if same_text(name.as_str(), "exit") {
        return Step::Exit;
    }
    match registry.resolve(name.as_str()) {
        Some(command) => Step::Run { command, args: words },
        None => Step::Fail(ShellError::CommandNotFound(name)),
    }
}

/// A failure never ends the session, and what a line leads to depends on
/// the table and on that line alone: after a name that is not bound, the
/// next line with a bound name runs its builtin.
pub proof fn lemma_failure_is_survived(
    table: Map<Seq<char>, Builtin>,
    first: Seq<char>,
    second: Seq<char>,
    n1: usize,
    n2: usize,
)
    requires
        n1 > 0,
        n2 > 0,
        tokens(first).len() > 0,
        tokens(first)[0] != "exit"@,
        !table.contains_key(tokens(first)[0]),
        tokens(second).len() > 0,
        tokens(second)[0] != "exit"@,
        table.contains_key(tokens(second)[0]),
    ensures
        step_of(table, n1, first) == StepView::Fail(ErrorView::CommandNotFound(tokens(first)[0])),
        !ends_session(step_of(table, n1, first)),
        step_of(table, n2, second) == (StepView::Run {
            command: table[tokens(second)[0]],
            args: tokens(second).skip(1),
        }),
{
}

/// No failure ends the session: only the end of the input and `exit` do.
pub proof fn lemma_only_end_and_exit_leave(
    table: Map<Seq<char>, Builtin>,
    bytes_read: usize,
    line: Seq<char>,
)
    ensures
        ends_session(step_of(table, bytes_read, line)) <==> bytes_read == 0 || (tokens(
            line,
        ).len() > 0 && tokens(line)[0] == "exit"@),
{
}

/// The prompt around a path that was painted already.
pub open spec fn prompt_around(painted_path: Seq<char>) -> Seq<char> {
    seq!['['] + painted_path + "] -> $ "@
}

/// The prompt for the working directory `cwd`: the directory in bold
/// cyan, between brackets, before the sign.
pub fn prompt(cwd: &str) -> (r: String)
    ensures
        exists|p: Seq<char>| #[trigger] painted(bold_cyan(), cwd@, p) && r@ == prompt_around(p),
{
    let path = paint_bold_cyan(cwd);
    let mut out = String::new();
    push_char(&mut out, '[');
    out.append(path.as_str());
    out.append("] -> $ ");
    assert(painted(bold_cyan(), cwd@, path@));
    assert(out@ =~= prompt_around(path@));
    out
}

/// The line that reports a failure, of a builtin or of the system, by
/// its description: `Error: ` and the description, in red.
pub fn error_line(description: &str) -> (r: String)
    ensures
        painted(red(), "Error: "@ + description@, r@),
{
    let mut text = String::from_str("Error: ");
    text.append(description);
    paint_red(text.as_str())
}

} // verus!
