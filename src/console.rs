use vstd::prelude::*;
use vstd::string::*;
use vstd::utf8::*;

use crate::text::{lemma_text_of_bytes, utf8_text};

verus! {

/// The status reported to the client, one per connection.
#[derive(Debug, Clone, Copy, PartialEq, Eq, Structural)]
pub enum Status {
    ServerDown,
    PlayerNotFound,
    AlreadyWhitelisted,
    Success,
    IncorrectPassword,
    Unexpected,
}

impl Status {
    /// The byte that carries the status on the wire.
    pub open spec fn code_spec(self) -> u8 {
        match self {
            Status::ServerDown => 0,
            Status::PlayerNotFound => 1,
            Status::AlreadyWhitelisted => 2,
            Status::Success => 3,
            Status::IncorrectPassword => 4,
            Status::Unexpected => 255,
        }
    }

    /// The status as its wire byte.
    pub fn code(&self) -> (r: u8)
        ensures
            r == self.code_spec(),
    {
        match self {
            Status::ServerDown => 0,
            Status::PlayerNotFound => 1,
            Status::AlreadyWhitelisted => 2,
            Status::Success => 3,
            Status::IncorrectPassword => 4,
            Status::Unexpected => 255,
        }
    }
}

/// `s` begins with `p`.
pub open spec fn starts_with(s: Seq<char>, p: Seq<char>) -> bool {
    p.len() <= s.len() && s.subrange(0, p.len() as int) == p
}

/// The status that the console tool's textual reply stands for.
pub open spec fn status_of_text(t: Seq<char>) -> Status {
    if t.len() == 0 {
        Status::ServerDown
    } else if starts_with(t, "That player does not exist"@) || starts_with(
        t,
        "Incorrect argument for command"@,
    ) {
        Status::PlayerNotFound
    } else if starts_with(t, "Player is already whitelisted"@) {
        Status::AlreadyWhitelisted
    } else if starts_with(t, "Added"@) {
        Status::Success
    } else {
        Status::Unexpected
    }
}

/// The status that the console tool's raw standard output stands for: no
/// output means the server is down, and output that is not UTF-8 text is
/// unexpected.
pub open spec fn status_of_output(b: Seq<u8>) -> Status {
    if b.len() == 0 {
        Status::ServerDown
    } else if !valid_utf8(b) {
        Status::Unexpected
    } else {
        status_of_text(decode_utf8(b))
    }
}

/// The console command that whitelists `username`.
pub open spec fn command_spec(username: Seq<char>) -> Seq<char> {
    "whitelist add "@ + username
}

fn has_prefix(s: &str, p: &str) -> (r: bool)
    ensures
        r == starts_with(s@, p@),
{
    let n = p.unicode_len();
    let m = s.unicode_len();
    if n > m {
        return false;
    }
    let mut i: usize = 0;
    while i < n
        invariant
            n == p@.len(),
            m == s@.len(),
            n <= m,
            i <= n,
            forall|j: int| 0 <= j < i ==> s@[j] == p@[j],
        decreases n - i,
    {
        if s.get_char(i) != p.get_char(i) {
            assert(s@.subrange(0, n as int)[i as int] != p@[i as int]);
            return false;
        }
        i = i + 1;
    }
    assert(s@.subrange(0, n as int) =~= p@);
    true
}

/// Classifies the console tool's reply, by literal prefix, in priority order.
pub fn classify_output(out: &str) -> (r: Status)
    ensures
        r == status_of_text(out@),
{
    if out.unicode_len() == 0 {
        Status::ServerDown
    } else if has_prefix(out, "That player does not exist") || has_prefix(
        out,
        "Incorrect argument for command",
    ) {
        Status::PlayerNotFound
    } else if has_prefix(out, "Player is already whitelisted") {
        Status::AlreadyWhitelisted
    } else if has_prefix(out, "Added") {
        Status::Success
    } else {
        Status::Unexpected
    }
}

/// Classifies the console tool's raw standard output.
pub fn classify(stdout: &[u8]) -> (r: Status)
    ensures
        r == status_of_output(stdout@),
{
    if stdout.len() == 0 {
        return Status::ServerDown;
    }
    match utf8_text(stdout) {
        None => Status::Unexpected,
        Some(text) => {
            proof {
                lemma_text_of_bytes(text, stdout@);
                if text@.len() == 0 {
                    assert(encode_utf8(text@) =~= Seq::<u8>::empty());
                }
            }
            classify_output(text)
        },
    }
}

/// The console command that whitelists `username`, the name put in verbatim.
pub fn whitelist_command(username: &str) -> (r: String)
    ensures
        r@ == command_spec(username@),
{
    "whitelist add ".to_owned().concat(username)
}

} // verus!
