//! The agent's command line: its commands and the values of its flags.
use vstd::prelude::*;

use crate::text;

verus! {

broadcast use vstd::string::group_string_axioms;

/// `arg` gives `flag` a value in one word, as in `--flag=value`.
pub open spec fn is_inline_form(arg: Seq<char>, flag: Seq<char>) -> bool {
    text::occurs_at(arg, flag + "="@, 0)
}

/// The value that the first mention of `flag` gives it: the rest of a word
/// `flag=value`, or the word after a word `flag`. A `flag` at the very end has none.
pub open spec fn flag_value(args: Seq<Seq<char>>, flag: Seq<char>) -> Option<Seq<char>>
    decreases args.len(),
{
    if args.len() == 0 {
        None
    } else if is_inline_form(args[0], flag) {
        Some(args[0].skip(flag.len() as int + 1))
    } else if args[0] == flag {
        if args.len() > 1 {
            Some(args[1])
        } else {
            None
        }
    } else {
        flag_value(args.drop_first(), flag)
    }
}

/// The value of `flag`, written `flag value` or `flag=value`, in the raw arguments.
pub fn arg_value<'a>(args: &'a [String], flag: &str) -> (value: Option<&'a str>)
    ensures
        value.deep_view() == flag_value(args.deep_view(), flag@),
{
    proof {
        reveal_strlit("=");
    }
    let ghost words = args.deep_view();
    let ghost flag_end: int = flag@.len() as int;
    assert(words.skip(0) == words);
    let mut i: usize = 0;
    while i < args.len()
        invariant
            "="@.len() == 1,
            flag_end == flag@.len(),
            i <= args.len(),
            words == args.deep_view(),
            flag_value(words, flag@) == flag_value(words.skip(i as int), flag@),
        decreases args.len() - i,
    {
        let arg = args[i].as_str();
        let ghost left = words.skip(i as int);
        assert(left[0] == arg@);
        assert(left.drop_first() == words.skip(i + 1));
        if let Some(rest) = text::strip_prefix(arg, flag) {
            assert(arg@ == flag@ + rest@);
            if let Some(value) = text::strip_prefix(rest, "=") {
                assert(rest@ == "="@ + value@);
                assert(arg@.subrange(0, flag_end + 1) == flag@ + "="@);
                assert(arg@.skip(flag_end + 1) == value@);
                return Some(value);
            }
            proof {
                if is_inline_form(arg@, flag@) {
                    assert((flag@ + "="@).skip(flag_end) == "="@);
                    assert(rest@.subrange(0, 1) == "="@);
                }
            }
        } else {
            proof {
                if is_inline_form(arg@, flag@) {
                    assert((flag@ + "="@).take(flag_end) == flag@);
                    assert(arg@.subrange(0, flag_end) == flag@);
                }
            }
        }
        if *arg == *flag {
            if i + 1 < args.len() {
                assert(left[1] == args[i + 1]@);
                return Some(args[i + 1].as_str());
            } else {
                return None;
            }
        }
        i += 1;
    }
    None
}

/// What the agent was started for.
pub enum Command {
    /// Lock the Cinnamon screensaver of the session user.
    LockCinnamon,
    /// Send the current user a desktop notification.
    Notify { summary: String, body: String },
    /// Forget the pairing.
    Reset,
    /// Run the agent.
    Run,
}

/// A [`Command`] with its texts as character sequences.
pub enum CommandView {
    LockCinnamon,
    Notify { summary: Seq<char>, body: Seq<char> },
    Reset,
    Run,
}

impl View for Command {
    type V = CommandView;

    open spec fn view(&self) -> CommandView {
        match *self {
            Command::LockCinnamon => CommandView::LockCinnamon,
            Command::Notify { summary, body } => CommandView::Notify {
                summary: summary@,
                body: body@,
            },
            Command::Reset => CommandView::Reset,
            Command::Run => CommandView::Run,
        }
    }
}

/// The word at `at`, or the empty one behind the end.
pub open spec fn word_or_empty(args: Seq<Seq<char>>, at: int) -> Seq<char> {
    if 0 <= at < args.len() {
        args[at]
    } else {
        Seq::empty()
    }
}

/// The command of an argument list. The word behind the program's name decides
/// first; `--reset` counts anywhere else.
pub open spec fn command_of(args: Seq<Seq<char>>) -> CommandView {
    if args.len() > 1 && args[1] == "--lock-cinnamon"@ {
        CommandView::LockCinnamon
    } else if args.len() > 1 && args[1] == "--notify"@ {
        CommandView::Notify { summary: word_or_empty(args, 2), body: word_or_empty(args, 3) }
    } else if args.contains("--reset"@) {
        CommandView::Reset
    } else {
        CommandView::Run
    }
}

/// Whether `word` is one of the arguments.
fn has_word(args: &[String], word: &str) -> (found: bool)
    ensures
        found == args.deep_view().contains(word@),
{
    let ghost words = args.deep_view();
    let mut i: usize = 0;
    while i < args.len()
        invariant
            i <= args.len(),
            words == args.deep_view(),
            forall|j: int| 0 <= j < i ==> words[j] != word@,
        decreases args.len() - i,
    {
        assert(words[i as int] == args[i as int]@);
        if *args[i].as_str() == *word {
            return true;
        }
        i += 1;
    }
    false
}

/// A copy of the word at `at`, or an empty text behind the end.
fn copy_word(args: &[String], at: usize) -> (word: String)
    ensures
        word@ == word_or_empty(args.deep_view(), at as int),
{
    if at < args.len() {
        args[at].clone()
    } else {
        String::new()
    }
}

/// Reads the command out of the raw arguments.
pub fn parse_command(args: &[String]) -> (command: Command)
    ensures
        command@ == command_of(args.deep_view()),
{
    if args.len() > 1 {
        let first = args[1].as_str();
        assert(args.deep_view()[1] == first@);
        if *first == *"--lock-cinnamon" {
            return Command::LockCinnamon;
        }
        if *first == *"--notify" {
            return Command::Notify { summary: copy_word(args, 2), body: copy_word(args, 3) };
        }
    }
    if has_word(args, "--reset") {
        Command::Reset
    } else {
        Command::Run
    }
}

/// No argument mentions `flag`, in either form.
pub open spec fn never_mentions(args: Seq<Seq<char>>, flag: Seq<char>) -> bool {
    forall|i: int|
        0 <= i < args.len() ==> args[i] != flag && !(flag + "="@).is_prefix_of(#[trigger] args[i])
}

/// A flag that no argument mentions has no value.
pub proof fn law_absent_flag_has_no_value(args: Seq<Seq<char>>, flag: Seq<char>)
    requires
        never_mentions(args, flag),
    ensures
        flag_value(args, flag) is None,
    decreases args.len(),
{
    if args.len() > 0 {
        assert(!(flag + "="@).is_prefix_of(args[0]));
        assert forall|i: int| 0 <= i < args.drop_first().len() implies args.drop_first()[i] != flag
            && !(flag + "="@).is_prefix_of(#[trigger] args.drop_first()[i]) by {
            assert(args.drop_first()[i] == args[i + 1]);
        }
        law_absent_flag_has_no_value(args.drop_first(), flag);
    }
}

/// Arguments that do not mention a flag do not matter to its value.
proof fn lemma_skip_other_arguments(
    before: Seq<Seq<char>>,
    args: Seq<Seq<char>>,
    flag: Seq<char>,
)
    requires
        never_mentions(before, flag),
    ensures
        flag_value(before + args, flag) == flag_value(args, flag),
    decreases before.len(),
{
    if before.len() > 0 {
        let rest = before.drop_first();
        assert(!(flag + "="@).is_prefix_of(before[0]));
        assert forall|i: int| 0 <= i < rest.len() implies rest[i] != flag && !(flag
            + "="@).is_prefix_of(#[trigger] rest[i]) by {
            assert(rest[i] == before[i + 1]);
        }
        lemma_skip_other_arguments(rest, args, flag);
        assert((before + args)[0] == before[0]);
        assert((before + args).drop_first() =~= rest + args);
    } else {
        assert(before + args =~= args);
    }
}

/// `--flag value` and `--flag=value` give the flag the same value, and the
/// first mention decides whatever follows it.
pub proof fn law_both_forms_give_the_value(
    before: Seq<Seq<char>>,
    flag: Seq<char>,
    value: Seq<char>,
    after: Seq<Seq<char>>,
)
    requires
        never_mentions(before, flag),
    ensures
        flag_value(before + seq![flag, value] + after, flag) == Some(value),
        flag_value(before + seq![flag + "="@ + value] + after, flag) == Some(value),
{
    reveal_strlit("=");
    let spaced = seq![flag, value] + after;
    assert(before + seq![flag, value] + after =~= before + spaced);
    lemma_skip_other_arguments(before, spaced, flag);
    assert(!is_inline_form(flag, flag));
    assert(spaced[0] == flag && spaced[1] == value);

    let word = flag + "="@ + value;
    let joined = seq![word] + after;
    assert(before + seq![word] + after =~= before + joined);
    lemma_skip_other_arguments(before, joined, flag);
    assert(word.subrange(0, flag.len() as int + 1) =~= flag + "="@);
    assert(word.skip(flag.len() as int + 1) =~= value);
    assert(joined[0] == word);
}

/// A flag that stands last, with nothing behind it, has no value.
pub proof fn law_flag_without_value(before: Seq<Seq<char>>, flag: Seq<char>)
    requires
        never_mentions(before, flag),
    ensures
        flag_value(before + seq![flag], flag) is None,
{
    reveal_strlit("=");
    lemma_skip_other_arguments(before, seq![flag], flag);
    assert(!is_inline_form(flag, flag));
}

/// The word behind the program's name selects locking and notifying, whatever
/// else is given; a notification has the next two words, or empty texts.
pub proof fn law_first_word_selects(args: Seq<Seq<char>>)
    requires
        args.len() > 1,
    ensures
        args[1] == "--lock-cinnamon"@ ==> command_of(args) is LockCinnamon,
        args[1] == "--notify"@ ==> (command_of(args) matches CommandView::Notify { summary, body }
            && summary == (if args.len() > 2 {
            args[2]
        } else {
            Seq::empty()
        }) && body == (if args.len() > 3 {
            args[3]
        } else {
            Seq::empty()
        })),
        command_of(args) is LockCinnamon ==> args[1] == "--lock-cinnamon"@,
        command_of(args) is Notify ==> args[1] == "--notify"@,
{
    reveal_strlit("--lock-cinnamon");
    reveal_strlit("--notify");
    assert("--lock-cinnamon"@.len() != "--notify"@.len());
}

/// Where the word behind the program's name selects neither, a word `--reset`
/// anywhere resets, and without one the agent runs.
pub proof fn law_reset_anywhere_else_run(args: Seq<Seq<char>>)
    requires
        args.len() > 1 ==> args[1] != "--lock-cinnamon"@ && args[1] != "--notify"@,
    ensures
        (exists|i: int| 0 <= i < args.len() && args[i] == "--reset"@) ==> command_of(args) is Reset,
        (forall|i: int| 0 <= i < args.len() ==> args[i] != "--reset"@) ==> command_of(args) is Run,
{
}

/// The view shows the command and the two texts of a notification as they are.
pub proof fn law_view_shows_the_command(command: Command)
    ensures
        command is LockCinnamon == command@ is LockCinnamon,
        command is Reset == command@ is Reset,
        command is Run == command@ is Run,
        command matches Command::Notify { summary, body } ==> command@ == (CommandView::Notify {
            summary: summary@,
            body: body@,
        }),
{
}

} // verus!
