use vstd::prelude::*;
use vstd::string::StrSliceExecFns;
use crate::action::{Action, ActionV};
use crate::error::AppError;
use crate::key::{KeyCode, KeyEvent};
use crate::text::text_of;

verus! {

/// What an `Option<Action>` stands for.
pub open spec fn view_opt(o: Option<Action>) -> Option<ActionV> {
    match o {
        Option::Some(a) => Option::Some(a@),
        Option::None => Option::None,
    }
}

/// The key-binding table: key chords mapped to the actions they trigger,
/// loaded once at startup and read-only thereafter. Lookup returns the
/// first entry bound to the key.
#[derive(Debug)]
pub struct KeyBindings {
    entries: Vec<(KeyEvent, Action)>,
}

impl View for KeyBindings {
    type V = Seq<(KeyEvent, ActionV)>;

    closed spec fn view(&self) -> Seq<(KeyEvent, ActionV)> {
        self.entries@.map_values(|p: (KeyEvent, Action)| (p.0, p.1@))
    }
}

impl KeyBindings {
    /// First-match lookup in a binding table.
    pub open spec fn lookup_in(s: Seq<(KeyEvent, ActionV)>, k: KeyEvent) -> Option<ActionV>
        decreases s.len(),
    {
        if s.len() == 0 {
            Option::None
        } else if s[0].0 == k {
            Option::Some(s[0].1)
        } else {
            Self::lookup_in(s.drop_first(), k)
        }
    }

    pub fn new() -> (b: KeyBindings)
        ensures
            b@ == Seq::<(KeyEvent, ActionV)>::empty(),
    {
        let b = KeyBindings { entries: Vec::new() };
        assert(b@ =~= Seq::<(KeyEvent, ActionV)>::empty());
        b
    }

    pub fn len(&self) -> (n: usize)
        ensures
            n == self@.len(),
    {
        self.entries.len()
    }

    /// Adds a binding at the end of the table; earlier bindings shadow it.
    pub fn bind(&mut self, k: KeyEvent, a: Action)
        ensures
            final(self)@ == old(self)@.push((k, a@)),
    {
        let ghost av = a@;
        self.entries.push((k, a));
        assert(self@ =~= old(self)@.push((k, av)));
    }

    /// The action bound to a key, if any.
    pub fn lookup(&self, k: KeyEvent) -> (r: Option<Action>)
        ensures
            view_opt(r) == Self::lookup_in(self@, k),
    {
        let n = self.entries.len();
        let mut i: usize = 0;
        proof {
            assert(self@.skip(0) =~= self@);
        }
        while i < n
            invariant
                i <= n,
                n == self@.len(),
                Self::lookup_in(self@.skip(i as int), k) == Self::lookup_in(self@, k),
            decreases n - i,
        {
            if self.entries[i].0 == k {
                let a = self.entries[i].1.dup();
                assert(self@.skip(i as int)[0] == self@[i as int]);
                return Option::Some(a);
            }
            proof {
                assert(self@.skip(i as int)[0] == self@[i as int]);
                assert(self@.skip(i as int).drop_first() =~= self@.skip(i as int + 1));
            }
            i = i + 1;
        }
        proof {
            assert(self@.skip(n as int) =~= Seq::<(KeyEvent, ActionV)>::empty());
        }
        Option::None
    }
}

/// The key names a chord may use.
pub open spec fn named_key(s: Seq<char>) -> Option<KeyCode> {
    if s == "esc"@ {
        Option::Some(KeyCode::Esc)
    } else if s == "enter"@ {
        Option::Some(KeyCode::Enter)
    } else if s == "backspace"@ {
        Option::Some(KeyCode::Backspace)
    } else if s == "delete"@ {
        Option::Some(KeyCode::Delete)
    } else if s == "left"@ {
        Option::Some(KeyCode::Left)
    } else if s == "right"@ {
        Option::Some(KeyCode::Right)
    } else if s == "home"@ {
        Option::Some(KeyCode::Home)
    } else if s == "end"@ {
        Option::Some(KeyCode::End)
    } else if s == "tab"@ {
        Option::Some(KeyCode::Tab)
    } else if s == "up"@ {
        Option::Some(KeyCode::Up)
    } else if s == "down"@ {
        Option::Some(KeyCode::Down)
    } else {
        Option::None
    }
}

/// A key name, or a single character standing for itself.
pub open spec fn base_key(s: Seq<char>) -> Option<KeyCode> {
    if named_key(s) is Some {
        named_key(s)
    } else if s.len() == 1 {
        Option::Some(KeyCode::Char(s[0]))
    } else {
        Option::None
    }
}

/// The grammar of a key chord: an optional `ctrl-` prefix, then an
/// optional `alt-` prefix, then a key. Anything else is malformed.
pub open spec fn chord_spec(s: Seq<char>) -> Option<KeyEvent> {
    let ctrl = s.len() >= 5 && s.take(5) == "ctrl-"@;
    let s1 = if ctrl {
        s.skip(5)
    } else {
        s
    };
    let alt = s1.len() >= 4 && s1.take(4) == "alt-"@;
    let s2 = if alt {
        s1.skip(4)
    } else {
        s1
    };
    match base_key(s2) {
        Option::Some(code) => Option::Some(KeyEvent { code, ctrl, alt }),
        Option::None => Option::None,
    }
}

/// The action names a binding may use; only payload-free actions can be
/// named in configuration.
pub open spec fn action_name_spec(s: Seq<char>) -> Option<ActionV> {
    if s == "tick"@ {
        Option::Some(ActionV::Tick)
    } else if s == "render"@ {
        Option::Some(ActionV::Render)
    } else if s == "quit"@ {
        Option::Some(ActionV::Quit)
    } else if s == "clear_screen"@ {
        Option::Some(ActionV::ClearScreen)
    } else if s == "update"@ {
        Option::Some(ActionV::Update)
    } else if s == "enter_normal"@ {
        Option::Some(ActionV::EnterNormal)
    } else if s == "enter_insert"@ {
        Option::Some(ActionV::EnterInsert)
    } else if s == "enter_processing"@ {
        Option::Some(ActionV::EnterProcessing)
    } else if s == "exit_processing"@ {
        Option::Some(ActionV::ExitProcessing)
    } else {
        Option::None
    }
}

/// One configured binding, if both its parts are well formed.
pub open spec fn binding_of(chord: Seq<char>, name: Seq<char>) -> Option<(KeyEvent, ActionV)> {
    match (chord_spec(chord), action_name_spec(name)) {
        (Option::Some(k), Option::Some(a)) => Option::Some((k, a)),
        _ => Option::None,
    }
}

/// Whether a slice of the character vector spells exactly the given word.
fn seg_eq(v: &Vec<char>, lo: usize, hi: usize, w: &str) -> (r: bool)
    requires
        lo <= hi <= v@.len(),
    ensures
        r == (v@.subrange(lo as int, hi as int) == w@),
{
    let n = w.unicode_len();
    if hi - lo != n {
        proof {
            assert(v@.subrange(lo as int, hi as int).len() == hi - lo);
        }
        return false;
    }
    let mut i: usize = 0;
    while i < n
        invariant
            lo <= hi <= v@.len(),
            n == w@.len(),
            hi - lo == n,
            i <= n,
            forall|j: int| 0 <= j < i ==> v@.subrange(lo as int, hi as int)[j] == w@[j],
        decreases n - i,
    {
        let c = v[lo + i];
        let d = w.get_char(i);
        proof {
            assert(v@.subrange(lo as int, hi as int)[i as int] == v@[lo + i]);
        }
        if c != d {
            return false;
        }
        i = i + 1;
    }
    proof {
        assert(v@.subrange(lo as int, hi as int) =~= w@);
    }
    true
}

fn base_key_exec(v: &Vec<char>, lo: usize) -> (r: Option<KeyCode>)
    requires
        lo <= v@.len(),
    ensures
        r == base_key(v@.skip(lo as int)),
{
    let n = v.len();
    proof {
        assert(v@.skip(lo as int) =~= v@.subrange(lo as int, n as int));
    }
    if seg_eq(v, lo, n, "esc") {
        Option::Some(KeyCode::Esc)
    } else if seg_eq(v, lo, n, "enter") {
        Option::Some(KeyCode::Enter)
    } else if seg_eq(v, lo, n, "backspace") {
        Option::Some(KeyCode::Backspace)
    } else if seg_eq(v, lo, n, "delete") {
        Option::Some(KeyCode::Delete)
    } else if seg_eq(v, lo, n, "left") {
        Option::Some(KeyCode::Left)
    } else if seg_eq(v, lo, n, "right") {
        Option::Some(KeyCode::Right)
    } else if seg_eq(v, lo, n, "home") {
        Option::Some(KeyCode::Home)
    } else if seg_eq(v, lo, n, "end") {
        Option::Some(KeyCode::End)
    } else if seg_eq(v, lo, n, "tab") {
        Option::Some(KeyCode::Tab)
    } else if seg_eq(v, lo, n, "up") {
        Option::Some(KeyCode::Up)
    } else if seg_eq(v, lo, n, "down") {
        Option::Some(KeyCode::Down)
    } else if n - lo == 1 {
        Option::Some(KeyCode::Char(v[lo]))
    } else {
        Option::None
    }
}

/// Parses a key chord such as `i`, `esc` or `ctrl-c`.
pub fn parse_key_chord(s: &str) -> (r: Option<KeyEvent>)
    ensures
        r == chord_spec(s@),
{
    let v = text_of(s);
    let n = v.len();
    let ctrl = n >= 5 && seg_eq(&v, 0, 5, "ctrl-");
    proof {
        if n >= 5 {
            assert(v@.subrange(0, 5) =~= v@.take(5));
        }
    }
    let lo: usize = if ctrl {
        5
    } else {
        0
    };
    let ghost s1 = if ctrl {
        s@.skip(5)
    } else {
        s@
    };
    proof {
        assert(s1 =~= v@.skip(lo as int));
    }
    let alt = n - lo >= 4 && seg_eq(&v, lo, lo + 4, "alt-");
    proof {
        if n - lo >= 4 {
            assert(v@.subrange(lo as int, lo as int + 4) =~= s1.take(4));
        }
    }
    let lo2: usize = if alt {
        lo + 4
    } else {
        lo
    };
    let ghost s2 = if alt {
        s1.skip(4)
    } else {
        s1
    };
    proof {
        assert(s2 =~= v@.skip(lo2 as int));
    }
    match base_key_exec(&v, lo2) {
        Option::Some(code) => Option::Some(KeyEvent { code, ctrl, alt }),
        Option::None => Option::None,
    }
}

/// Parses an action name such as `quit` or `enter_insert`.
pub fn parse_action_name(s: &str) -> (r: Option<Action>)
    ensures
        view_opt(r) == action_name_spec(s@),
{
    let v = text_of(s);
    let n = v.len();
    proof {
        assert(v@.subrange(0, n as int) =~= s@);
    }
    if seg_eq(&v, 0, n, "tick") {
        Option::Some(Action::Tick)
    } else if seg_eq(&v, 0, n, "render") {
        Option::Some(Action::Render)
    } else if seg_eq(&v, 0, n, "quit") {
        Option::Some(Action::Quit)
    } else if seg_eq(&v, 0, n, "clear_screen") {
        Option::Some(Action::ClearScreen)
    } else if seg_eq(&v, 0, n, "update") {
        Option::Some(Action::Update)
    } else if seg_eq(&v, 0, n, "enter_normal") {
        Option::Some(Action::EnterNormal)
    } else if seg_eq(&v, 0, n, "enter_insert") {
        Option::Some(Action::EnterInsert)
    } else if seg_eq(&v, 0, n, "enter_processing") {
        Option::Some(Action::EnterProcessing)
    } else if seg_eq(&v, 0, n, "exit_processing") {
        Option::Some(Action::ExitProcessing)
    } else {
        Option::None
    }
}

/// Builds the binding table from configured (chord, action-name) pairs.
/// A malformed entry is a startup error, never a runtime one: the table
/// is built if and only if every pair parses.
pub fn parse_bindings(pairs: &Vec<(String, String)>) -> (r: Result<KeyBindings, AppError>)
    ensures
        r matches Ok(kb) ==> kb@.len() == pairs@.len() && forall|i: int|
            0 <= i < pairs@.len() ==> binding_of(
                pairs@[i].0@,
                pairs@[i].1@,
            ) == Option::Some(#[trigger] kb@[i]),
        r is Err ==> exists|i: int|
            0 <= i < pairs@.len() && #[trigger] binding_of(pairs@[i].0@, pairs@[i].1@) is None,
        (forall|i: int|
            0 <= i < pairs@.len() ==> #[trigger] binding_of(pairs@[i].0@, pairs@[i].1@) is Some)
            ==> r is Ok,
{
    let mut kb = KeyBindings::new();
    let n = pairs.len();
    let mut i: usize = 0;
    while i < n
        invariant
            i <= n,
            n == pairs@.len(),
            kb@.len() == i,
            forall|j: int| 0 <= j < i ==> binding_of(pairs@[j].0@, pairs@[j].1@) == Option::Some(
                #[trigger] kb@[j],
            ),
        decreases n - i,
    {
        let k = parse_key_chord(pairs[i].0.as_str());
        let a = parse_action_name(pairs[i].1.as_str());
        match (k, a) {
            (Option::Some(key), Option::Some(action)) => {
                kb.bind(key, action);
            },
            _ => {
                proof {
                    assert(binding_of(pairs@[i as int].0@, pairs@[i as int].1@) is None);
                }
                return Result::Err(AppError::Startup(text_of("malformed key binding")));
            },
        }
        i = i + 1;
    }
    Result::Ok(kb)
}

} // verus!
