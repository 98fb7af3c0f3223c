//! A message of one of four shapes, and the one shape that can be delivered.

use vstd::prelude::*;
use vstd::string::StringExecFns;

verus! {

/// A message. Each tag carries data of its own shape: none, two named
/// numbers, a text, or three numbers.
#[derive(Debug, PartialEq, Eq)]
pub enum Message {
    Quit,
    Move { x: i32, y: i32 },
    Write(String),
    ChangeColor(i32, i32, i32),
}

impl Message {
    /// The line that delivering a written message produces.
    pub open spec fn line(text: Seq<char>) -> Seq<char> {
        "Message: "@ + text
    }

    /// Delivers the message: returns the line to show for it.
    ///
    /// Only a written message can be delivered. The other three shapes
    /// have branches that only abort: they are left out of what callers
    /// may pass.
    pub fn call(&self) -> (line: String)
        requires
            self is Write,
        ensures
            line@ == Message::line(self->Write_0@),
    {
        match self {
            Message::Write(string) => "Message: ".to_owned().concat(string.as_str()),
            Message::Quit => vstd::pervasive::unreached(),
            Message::Move { x: _, y: _ } => vstd::pervasive::unreached(),
            Message::ChangeColor(_, _, _) => vstd::pervasive::unreached(),
        }
    }
}

/// Writes the message `hello` and delivers it.
pub fn enum_methods() -> (line: String)
    ensures
        line@ == "Message: hello"@,
{
    let m = Message::Write("hello".to_owned());
    let line = m.call();
    proof {
        reveal_strlit("Message: ");
        reveal_strlit("hello");
        reveal_strlit("Message: hello");
    }
    line
}

} // verus!
