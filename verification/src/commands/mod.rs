//! The commands that the game answers to, and how they are read from a
//! message.

pub mod peek;
pub mod roulette;
pub mod text;

use peek::PeekCommand;
use roulette::RouletteCommand;
use text::{chars_of, find, lemma_split_once, lemma_trim_end, lemma_trim_start, matches_range};
use text::{split_once, trim, whitespace};
use vstd::prelude::*;

verus! {

/// List of commands. Cheap to clone.
#[non_exhaustive]
#[derive(Debug, Clone, Copy, PartialEq, Eq, Structural)]
pub enum Commands {
    Peek,
    Roulette,
}

/// A command as it is announced to the users: its trigger word and what it
/// does.
#[derive(Debug, Clone, Copy)]
pub struct CommandInfo {
    pub command: &'static str,
    pub description: &'static str,
}

/// The command that `text` asks for, when it is addressed to the one named
/// `username`.
///
/// The first word of the text, white space at either end aside, is the
/// command: a slash, the trigger word, and optionally an `@` with the name
/// of the one addressed. A command addressed to another name is none.
pub open spec fn command_in(text: Seq<char>, username: Seq<char>) -> Option<Commands> {
    let word = split_once(trim(text), ' ').0;
    if word.len() == 0 || word.first() != '/' {
        None
    } else {
        let (name, mention) = split_once(word.drop_first(), '@');
        if mention.len() > 0 && mention != username {
            None
        } else if name == PeekCommand::TRIGGER@ {
            Some(Commands::Peek)
        } else if name == RouletteCommand::TRIGGER@ {
            Some(Commands::Roulette)
        } else {
            None
        }
    }
}

impl Commands {
    /// Try to parse the given text to a command.
    ///
    /// # Arguments
    ///
    /// - `text` - The text to check.
    /// - `username` - The username of the bot.
    pub fn parse(text: Option<&String>, username: &str) -> (command: Option<Commands>)
        ensures
            command == match text {
                Some(text) => command_in(text@, username@),
                None => None,
            },
    {
        let Some(text) = text else {
            return None;
        };
        let chars = chars_of(text.as_str());
        let total = chars.len();
        // Trim the white space at either end
        let mut start: usize = 0;
        while start < total && whitespace(chars[start])
            invariant
                start <= total == chars@.len(),
                forall|i: int| 0 <= i < start ==> text::is_whitespace(#[trigger] chars@[i]),
            decreases total - start,
        {
            start = start + 1;
        }
        let mut end: usize = total;
        while start < end && whitespace(chars[end - 1])
            invariant
                start <= end <= total == chars@.len(),
                forall|i: int| end <= i < total ==> text::is_whitespace(#[trigger] chars@[i]),
            decreases end,
        {
            end = end - 1;
        }
        let ghost trimmed = chars@.subrange(start as int, end as int);
        proof {
            lemma_trim_start(chars@, start as int);
            let tail = chars@.skip(start as int);
            assert forall|i: int| end - start <= i < tail.len() implies text::is_whitespace(
                #[trigger] tail[i],
            ) by {
                assert(tail[i] == chars@[i + start]);
            }
            lemma_trim_end(tail, end - start);
            assert(tail.take(end - start) =~= trimmed);
            assert(trim(text@) == trimmed);
        }
        // Two possible command formats:
        // 1. /command <arg>
        // 2. /command@bot_username <arg>
        let word_end = find(&chars, start, end, ' ');
        let ghost word = chars@.subrange(start as int, word_end as int);
        proof {
            lemma_split_once(trimmed, ' ', word_end - start);
            assert(trimmed.take(word_end - start) =~= word);
            assert(word_end == end ==> trimmed =~= word);
            assert(split_once(trimmed, ' ').0 == word);
        }
        // Trim the leading slash
        if start == word_end || chars[start] != '/' {
            return None;
        }
        let name_start = start + 1;
        let ghost body = chars@.subrange(name_start as int, word_end as int);
        assert(word.drop_first() =~= body);
        // Split out the mention and check if it's the bot
        let name_end = find(&chars, name_start, word_end, '@');
        let mention_start = if name_end < word_end {
            name_end + 1
        } else {
            word_end
        };
        let ghost name = chars@.subrange(name_start as int, name_end as int);
        let ghost mention = chars@.subrange(mention_start as int, word_end as int);
        proof {
            lemma_split_once(body, '@', name_end - name_start);
            assert(body.take(name_end - name_start) =~= name);
            if name_end < word_end {
                assert(body.skip(name_end - name_start + 1) =~= mention);
            } else {
                assert(body =~= name);
                assert(mention =~= Seq::<char>::empty());
            }
            assert(split_once(body, '@') == (name, mention));
        }
        if mention_start < word_end {
            let addressed = chars_of(username);
            if !matches_range(&chars, mention_start, word_end, &addressed) {
                return None;
            }
        }
        // Match the command
        let peek = chars_of(PeekCommand::TRIGGER);
        let roulette = chars_of(RouletteCommand::TRIGGER);
        if matches_range(&chars, name_start, name_end, &peek) {
            Some(Commands::Peek)
        } else if matches_range(&chars, name_start, name_end, &roulette) {
            Some(Commands::Roulette)
        } else {
            None
        }
    }

    /// List of commands.
    pub fn list() -> (commands: Vec<CommandInfo>)
        ensures
            commands@.len() == 2,
            commands@[0].command@ == PeekCommand::TRIGGER@,
            commands@[0].description@ == PeekCommand::HELP@,
            commands@[1].command@ == RouletteCommand::TRIGGER@,
            commands@[1].description@ == RouletteCommand::HELP@,
    {
        let mut commands: Vec<CommandInfo> = Vec::new();
        commands.push(
            CommandInfo { command: PeekCommand::TRIGGER, description: PeekCommand::HELP },
        );
        commands.push(
            CommandInfo { command: RouletteCommand::TRIGGER, description: RouletteCommand::HELP },
        );
        commands
    }
}

} // verus!
