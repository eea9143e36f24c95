use vstd::prelude::*;
use crate::action::{Action, ActionV};
use crate::conversation::{Conversation, Message, MessageV, Role};
use crate::input::{edit_spec, empty_input, input_wf, InputBuffer, InputView};
use crate::key::{KeyCode, KeyEvent};
use crate::keymap::KeyBindings;
use crate::mode::Mode;

verus! {

/// The chat component: the one unit of the component set. It owns the
/// mode state machine, the line editor, the conversation log, and the
/// key-binding table that `Normal` mode consults.
#[derive(Debug)]
pub struct Home {
    pub keymap: KeyBindings,
    pub mode: Mode,
    pub input: InputBuffer,
    pub conversation: Conversation,
    pub last_events: Vec<KeyEvent>,
}

/// The mathematical value of [`Home`].
#[verifier::ext_equal]
pub ghost struct HomeV {
    pub keymap: Seq<(KeyEvent, ActionV)>,
    pub mode: Mode,
    pub input: InputView,
    pub conversation: Seq<MessageV>,
    pub last_events: Seq<KeyEvent>,
}

impl View for Home {
    type V = HomeV;

    open spec fn view(&self) -> HomeV {
        HomeV {
            keymap: self.keymap@,
            mode: self.mode,
            input: self.input@,
            conversation: self.conversation@,
            last_events: self.last_events@,
        }
    }
}

/// The state a component starts in: `Normal` mode, nothing typed, nothing
/// logged, no bindings.
pub open spec fn initial_home() -> HomeV {
    HomeV {
        keymap: Seq::empty(),
        mode: Mode::Normal,
        input: empty_input(),
        conversation: Seq::empty(),
        last_events: Seq::empty(),
    }
}

/// The mode after a component consumes one action.
pub open spec fn mode_after(m: Mode, a: ActionV) -> Mode {
    match a {
        ActionV::EnterNormal => Mode::Normal,
        ActionV::EnterInsert => Mode::Insert,
        ActionV::EnterProcessing => Mode::Processing,
        ActionV::ExitProcessing => Mode::Normal,
        _ => m,
    }
}

/// The component state after consuming one action: mode transitions follow
/// [`mode_after`], `Tick` empties the recent-event trace, and `SendQuery`
/// appends the submitted text as a `User` message. Every other action
/// leaves the component unchanged; unrecognized actions are no-ops.
pub open spec fn update_spec(h: HomeV, a: ActionV) -> HomeV {
    let h1 = HomeV { mode: mode_after(h.mode, a), ..h };
    match a {
        ActionV::Tick => HomeV { last_events: Seq::empty(), ..h1 },
        ActionV::SendQuery(s) => HomeV {
            conversation: h.conversation.push(MessageV { role: Role::User, content: s }),
            ..h1
        },
        _ => h1,
    }
}

/// The actions a component emits for one key event.
///
/// `Processing` swallows every key. `Normal` consults the binding table and
/// emits nothing for an unbound key. `Insert` turns `Esc` into `EnterNormal`,
/// `Enter` into the submission pair `SendQuery` then `EnterNormal`, and every
/// other key into an `Update` redraw request.
pub open spec fn key_actions_spec(h: HomeV, k: KeyEvent) -> Seq<ActionV> {
    match h.mode {
        Mode::Processing => Seq::empty(),
        Mode::Normal => match KeyBindings::lookup_in(h.keymap, k) {
            Option::Some(a) => seq![a],
            Option::None => Seq::empty(),
        },
        Mode::Insert => match k.code {
            KeyCode::Esc => seq![ActionV::EnterNormal],
            KeyCode::Enter => seq![ActionV::SendQuery(h.input.text), ActionV::EnterNormal],
            _ => seq![ActionV::Update],
        },
    }
}

/// The component state after one key event. The key is always traced; the
/// editor is reset exactly when a query is submitted or `Insert` mode is
/// cancelled with `Esc`, and edited by every other `Insert`-mode key. The
/// mode itself changes only through actions, never here.
pub open spec fn key_state_spec(h: HomeV, k: KeyEvent) -> HomeV {
    let h1 = HomeV { last_events: h.last_events.push(k), ..h };
    match h.mode {
        Mode::Processing => h1,
        Mode::Normal => h1,
        Mode::Insert => match k.code {
            KeyCode::Esc => HomeV { input: empty_input(), ..h1 },
            KeyCode::Enter => HomeV { input: empty_input(), ..h1 },
            _ => HomeV { input: edit_spec(h.input, k), ..h1 },
        },
    }
}

impl Home {
    pub open spec fn wf(&self) -> bool {
        input_wf(self@.input)
    }

    pub fn new() -> (h: Home)
        ensures
            h@ == initial_home(),
            h.wf(),
    {
        let h = Home {
            keymap: KeyBindings::new(),
            mode: Mode::Normal,
            input: InputBuffer::new(),
            conversation: Conversation::new(),
            last_events: Vec::new(),
        };
        assert(h@ =~= initial_home());
        h
    }

    /// Replaces the binding table; the builder form used at startup.
    pub fn keymap(self, keymap: KeyBindings) -> (h: Home)
        ensures
            h@ == (HomeV { keymap: keymap@, ..self@ }),
    {
        Home { keymap, ..self }
    }

    /// The periodic housekeeping step: forgets the recent-event trace.
    pub fn tick(&mut self)
        ensures
            final(self)@ == (HomeV { last_events: Seq::empty(), ..old(self)@ }),
    {
        self.last_events.clear();
        assert(self@ =~= (HomeV { last_events: Seq::empty(), ..old(self)@ }));
    }

    /// Appends submitted text to the conversation as a `User` message.
    pub fn add(&mut self, s: Vec<char>)
        ensures
            final(self)@ == (HomeV {
                conversation: old(self)@.conversation.push(
                    MessageV { role: Role::User, content: s@ },
                ),
                ..old(self)@
            }),
    {
        let ghost sv = s@;
        self.conversation.push(Message::new(Role::User, s));
        assert(self@ =~= (HomeV {
            conversation: old(self)@.conversation.push(MessageV { role: Role::User, content: sv }),
            ..old(self)@
        }));
    }

    /// Consumes one action from the queue; follow-up actions are never
    /// needed, so the result is always `None`.
    pub fn update(&mut self, action: Action) -> (r: Option<Action>)
        ensures
            final(self)@ == update_spec(old(self)@, action@),
            r is None,
    {
        match action {
            Action::Tick => self.tick(),
            Action::EnterNormal => {
                self.mode = Mode::Normal;
            },
            Action::SendQuery(s) => self.add(s),
            Action::EnterInsert => {
                self.mode = Mode::Insert;
            },
            Action::EnterProcessing => {
                self.mode = Mode::Processing;
            },
            Action::ExitProcessing => {
                self.mode = Mode::Normal;
            },
            _ => {},
        }
        assert(self@ =~= update_spec(old(self)@, action@));
        Option::None
    }

    /// Interprets one raw key event according to the current mode and
    /// returns the actions to put on the queue, in order.
    pub fn handle_key_events(&mut self, key: KeyEvent) -> (acts: Vec<Action>)
        requires
            old(self).wf(),
        ensures
            final(self)@ == key_state_spec(old(self)@, key),
            acts@.map_values(|a: Action| a@) == key_actions_spec(old(self)@, key),
            final(self).wf(),
    {
        self.last_events.push(key);
        let mut acts: Vec<Action> = Vec::new();
        match self.mode {
            Mode::Processing => {},
            Mode::Normal => {
                match self.keymap.lookup(key) {
                    Option::Some(a) => {
                        let ghost av = a@;
                        acts.push(a);
                        assert(acts@.map_values(|x: Action| x@) =~= seq![av]);
                    },
                    Option::None => {},
                }
            },
            Mode::Insert => {
                match key.code {
                    KeyCode::Esc => {
                        self.input.clear();
                        acts.push(Action::EnterNormal);
                        assert(acts@.map_values(|x: Action| x@) =~= seq![ActionV::EnterNormal]);
                    },
                    KeyCode::Enter => {
                        let q = self.input.value();
                        self.input.clear();
                        acts.push(Action::SendQuery(q));
                        acts.push(Action::EnterNormal);
                        assert(acts@.map_values(|x: Action| x@) =~= seq![
                            ActionV::SendQuery(old(self)@.input.text),
                            ActionV::EnterNormal,
                        ]);
                    },
                    _ => {
                        self.input.handle_key(key);
                        acts.push(Action::Update);
                        assert(acts@.map_values(|x: Action| x@) =~= seq![ActionV::Update]);
                    },
                }
            },
        }
        assert(self@ =~= key_state_spec(old(self)@, key));
        assert(acts@.map_values(|a: Action| a@) =~= key_actions_spec(old(self)@, key));
        acts
    }
}

/// The component state after a whole run of key events, oldest first.
pub open spec fn keys_state_spec(h: HomeV, ks: Seq<KeyEvent>) -> HomeV
    decreases ks.len(),
{
    if ks.len() == 0 {
        h
    } else {
        keys_state_spec(key_state_spec(h, ks[0]), ks.drop_first())
    }
}

/// Every action a run of key events emits, in order.
pub open spec fn keys_actions_spec(h: HomeV, ks: Seq<KeyEvent>) -> Seq<ActionV>
    decreases ks.len(),
{
    if ks.len() == 0 {
        Seq::empty()
    } else {
        key_actions_spec(h, ks[0]) + keys_actions_spec(key_state_spec(h, ks[0]), ks.drop_first())
    }
}

/// Law: while a query is outstanding — `Processing` mode — no run of key
/// events of any kind produces an action, and nothing but the recent-event
/// trace changes; in particular the editor and the conversation are safe
/// from overlapping submissions.
pub proof fn lemma_processing_swallows_keys(h: HomeV, ks: Seq<KeyEvent>)
    requires
        h.mode == Mode::Processing,
    ensures
        keys_actions_spec(h, ks) == Seq::<ActionV>::empty(),
        keys_state_spec(h, ks) == (HomeV { last_events: h.last_events + ks, ..h }),
    decreases ks.len(),
{
    if ks.len() == 0 {
        assert(h.last_events + ks =~= h.last_events);
        assert(keys_state_spec(h, ks) =~= (HomeV { last_events: h.last_events + ks, ..h }));
    } else {
        let k0 = ks[0];
        let h1 = key_state_spec(h, k0);
        assert(key_actions_spec(h, k0) == Seq::<ActionV>::empty());
        assert(h1 =~= (HomeV { last_events: h.last_events.push(k0), ..h }));
        lemma_processing_swallows_keys(h1, ks.drop_first());
        assert(keys_actions_spec(h, ks) =~= Seq::<ActionV>::empty());
        assert(h.last_events.push(k0) + ks.drop_first() =~= h.last_events + ks);
        assert(keys_state_spec(h, ks) =~= (HomeV { last_events: h.last_events + ks, ..h }));
    }
}

/// Law: while in `Normal` mode, a run of key events none of which matches a
/// binding produces no action at all and changes nothing but the
/// recent-event trace — in particular the mode is unchanged.
pub proof fn lemma_normal_unbound_keys_are_inert(h: HomeV, ks: Seq<KeyEvent>)
    requires
        h.mode == Mode::Normal,
        forall|i: int| 0 <= i < ks.len() ==> KeyBindings::lookup_in(h.keymap, #[trigger] ks[i]) is None,
    ensures
        keys_actions_spec(h, ks) == Seq::<ActionV>::empty(),
        keys_state_spec(h, ks) == (HomeV { last_events: h.last_events + ks, ..h }),
    decreases ks.len(),
{
    if ks.len() == 0 {
        assert(h.last_events + ks =~= h.last_events);
        assert(keys_state_spec(h, ks) =~= (HomeV { last_events: h.last_events + ks, ..h }));
    } else {
        let k0 = ks[0];
        let h1 = key_state_spec(h, k0);
        assert(KeyBindings::lookup_in(h.keymap, k0) is None);
        assert(key_actions_spec(h, k0) == Seq::<ActionV>::empty());
        assert(h1 =~= (HomeV { last_events: h.last_events.push(k0), ..h }));
        lemma_normal_unbound_keys_are_inert(h1, ks.drop_first());
        assert(keys_actions_spec(h, ks) =~= Seq::<ActionV>::empty());
        assert(h.last_events.push(k0) + ks.drop_first() =~= h.last_events + ks);
        assert(keys_state_spec(h, ks) =~= (HomeV { last_events: h.last_events + ks, ..h }));
    }
}

} // verus!
