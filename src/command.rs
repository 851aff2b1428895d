//! Recognising the chat command that triggers a recording.

use vstd::prelude::*;
use vstd::string::*;
use crate::text::{
    ends_with, ends_with_spec, is_last_index_of, last_index_of, starts_with_char, str_equal,
};

verus! {

/// A command the bot answers.
#[derive(Debug, Clone, Copy, PartialEq, Eq)]
pub enum Command {
    /// Record every configured camera now.
    GetRecordNow,
}

/// `cmd` is `message` with an `@bot_name` mention removed: when the message
/// ends with the bot's name, everything from its last `@` on is dropped.
pub open spec fn command_part(message: Seq<char>, bot_name: Seq<char>, cmd: Seq<char>) -> bool {
    if ends_with_spec(message, bot_name) && exists|i: int| is_last_index_of(message, '@', i) {
        exists|i: int| is_last_index_of(message, '@', i) && cmd == message.take(i)
    } else {
        cmd == message
    }
}

/// The command in a chat message: a message starting with `/` whose
/// command part is `record_command` asks for a recording; any other
/// message is no command.
pub fn get_command(message: &str, bot_name: &str, record_command: &str) -> (r: Option<Command>)
    ensures
        r.is_some() ==> r == Some(Command::GetRecordNow),
        r.is_some() == (message@.len() > 0 && message@[0] == '/' && command_part(
            message@,
            bot_name@,
            record_command@,
        )),
{
    if !starts_with_char(message, '/') {
        return None;
    }
    let n = message.unicode_len();
    let mut cut: usize = n;
    if ends_with(message, bot_name) {
        match last_index_of(message, '@') {
            Some(i) => {
                cut = i;
            },
            None => {},
        }
    }
    let cmd = message.substring_char(0, cut);
    let same = str_equal(cmd, record_command);
    proof {
        let m = message@;
        if ends_with_spec(m, bot_name@) && exists|i: int| is_last_index_of(m, '@', i) {
            assert(is_last_index_of(m, '@', cut as int));
            assert(cmd@ =~= m.take(cut as int));
            assert forall|i: int| is_last_index_of(m, '@', i) implies i == cut as int by {
                if i < cut {
                    assert(m[cut as int] != '@');
                } else if i > cut {
                    assert(m[i] != '@');
                }
            }
            if same {
                assert(command_part(m, bot_name@, record_command@));
            }
        } else {
            assert(cmd@ =~= m);
        }
    }
    if same {
        Some(Command::GetRecordNow)
    } else {
        None
    }
}

} // verus!
