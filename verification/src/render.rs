use vstd::prelude::*;
use vstd::math::min;
use crate::conversation::{Conversation, Message, MessageV, Role};
use crate::text::{clone_chars, text_of};

verus! {

/// The label a speaker is shown under.
pub open spec fn role_label_spec(r: Role) -> Seq<char> {
    match r {
        Role::User => "User"@,
        Role::Assistant => "Assistant"@,
        Role::System => "System"@,
    }
}

/// One transcript line: the speaker's label, a separator, the text.
pub open spec fn line_spec(m: MessageV) -> Seq<char> {
    role_label_spec(m.role) + " : "@ + m.content
}

pub fn role_label(r: Role) -> (s: Vec<char>)
    ensures
        s@ == role_label_spec(r),
{
    match r {
        Role::User => text_of("User"),
        Role::Assistant => text_of("Assistant"),
        Role::System => text_of("System"),
    }
}

/// The transcript line for one message.
pub fn render_line(m: &Message) -> (r: Vec<char>)
    ensures
        r@ == line_spec(m@),
{
    let mut r = role_label(m.role);
    let mut sep = text_of(" : ");
    r.append(&mut sep);
    let mut content = clone_chars(&m.content);
    r.append(&mut content);
    assert(r@ =~= line_spec(m@));
    r
}

/// The transcript line of every message of the conversation, in order.
pub fn transcript_lines(c: &Conversation) -> (r: Vec<Vec<char>>)
    ensures
        r@.len() == c@.len(),
        forall|i: int| 0 <= i < c@.len() ==> (#[trigger] r@[i])@ == line_spec(c@[i]),
{
    let n = c.len();
    let mut r: Vec<Vec<char>> = Vec::new();
    let mut i: usize = 0;
    while i < n
        invariant
            i <= n,
            n == c@.len(),
            r@.len() == i,
            forall|j: int| 0 <= j < i ==> (#[trigger] r@[j])@ == line_spec(c@[j]),
        decreases n - i,
    {
        r.push(render_line(c.message_at(i)));
        i = i + 1;
    }
    r
}

/// The columns available to the input text inside its framed box: two for
/// the borders and one for the cursor are kept back.
pub fn input_width(w: u16) -> (r: u16)
    ensures
        w >= 3 ==> r == w - 3,
        w < 3 ==> r == 0,
{
    if w >= 3 {
        w - 3
    } else {
        0
    }
}

/// The screen column of the cursor inside the input box: one past the left
/// border plus the cursor offset, capped one short of the right border.
pub fn cursor_column(x: u16, width: u16, cursor: usize) -> (r: u16)
    requires
        width >= 2,
        x + width <= u16::MAX,
    ensures
        r as int == min(x as int + 1 + cursor as int, x as int + width as int - 2),
{
    let cap: u16 = x + width - 2;
    let c: usize = if cursor > 65535 {
        65535
    } else {
        cursor
    };
    let pos: usize = x as usize + 1 + c;
    if pos < cap as usize {
        pos as u16
    } else {
        cap
    }
}

} // verus!
