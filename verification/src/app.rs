use vstd::prelude::*;
use crate::action::{Action, ActionV};
use crate::bus::ActionBus;
use crate::conversation::{Message, MessageV, Role};
use crate::error::{message_spec, AppError};
use crate::event::{Event, EventV};
use crate::home::{
    initial_home, key_actions_spec, key_state_spec, update_spec, Home, HomeV,
};
use crate::input::{empty_input, input_wf};
use crate::key::{KeyCode, KeyEvent};
use crate::mode::Mode;
use crate::text::clone_chars;

verus! {

/// What one pass of the orchestrator asks its caller to do afterwards:
/// redraw the screen, or clear it first.
#[derive(Clone, Copy, Debug, PartialEq, Eq, Structural)]
pub struct StepReport {
    pub needs_draw: bool,
    pub clear_screen: bool,
}

/// The orchestrator: owns the component set (one chat component), the
/// action queue, and the bookkeeping the event loop reads — whether to
/// quit, a query waiting to go to the remote chat service, the latest
/// terminal size, and the latest recoverable error.
#[derive(Debug)]
pub struct App {
    pub home: Home,
    pub bus: ActionBus,
    pub should_quit: bool,
    pub pending_query: Option<Vec<char>>,
    pub size: Option<(u16, u16)>,
    pub last_error: Option<Vec<char>>,
}

/// The mathematical value of an [`App`].
#[verifier::ext_equal]
pub ghost struct AppV {
    pub home: HomeV,
    pub queue: Seq<ActionV>,
    pub should_quit: bool,
    pub pending_query: Option<Seq<char>>,
    pub size: Option<(u16, u16)>,
    pub last_error: Option<Seq<char>>,
}

/// What an optional text value stands for.
pub open spec fn view_opt_chars(o: Option<Vec<char>>) -> Option<Seq<char>> {
    match o {
        Option::Some(v) => Option::Some(v@),
        Option::None => Option::None,
    }
}

impl View for App {
    type V = AppV;

    open spec fn view(&self) -> AppV {
        AppV {
            home: self.home@,
            queue: self.bus@,
            should_quit: self.should_quit,
            pending_query: view_opt_chars(self.pending_query),
            size: self.size,
            last_error: view_opt_chars(self.last_error),
        }
    }
}

/// The orchestrator state at startup.
pub open spec fn initial_app() -> AppV {
    AppV {
        home: initial_home(),
        queue: Seq::empty(),
        should_quit: false,
        pending_query: Option::None,
        size: Option::None,
        last_error: Option::None,
    }
}

/// Whether consuming this action must be followed by a redraw.
pub open spec fn action_draws(a: ActionV) -> bool {
    ||| a is Render
    ||| a is Update
    ||| a is Resize
    ||| a is ClearScreen
}

/// The orchestrator and component state after one action is consumed from
/// the queue (the queue field holds the actions still pending).
///
/// Every action reaches the component; in addition `Quit` arms shutdown,
/// `Resize` records the new dimensions, `Error` records the message, and
/// `SendQuery` parks the text for the remote chat service and puts
/// `EnterProcessing` on the queue, so the component stops taking keys
/// until the reply arrives.
pub open spec fn dispatch_spec(s: AppV, a: ActionV) -> AppV {
    let s1 = AppV { home: update_spec(s.home, a), ..s };
    match a {
        ActionV::Quit => AppV { should_quit: true, ..s1 },
        ActionV::Resize(w, h) => AppV { size: Option::Some((w, h)), ..s1 },
        ActionV::Error(m) => AppV { last_error: Option::Some(m), ..s1 },
        ActionV::SendQuery(q) => AppV {
            pending_query: Option::Some(q),
            queue: s1.queue.push(ActionV::EnterProcessing),
            ..s1
        },
        _ => s1,
    }
}

/// How many submissions a queue still carries; draining one consumes it
/// and injects a single follow-up, so the queue length plus this count
/// shrinks with every consumed action.
pub open spec fn count_send(q: Seq<ActionV>) -> nat
    decreases q.len(),
{
    if q.len() == 0 {
        0
    } else {
        (if q[0] is SendQuery {
            1nat
        } else {
            0nat
        }) + count_send(q.drop_first())
    }
}

/// Enough steps to drain a queue completely.
pub open spec fn drain_fuel(s: AppV) -> nat {
    s.queue.len() + count_send(s.queue)
}

/// The result of draining the queue: the final state and the redraw flags
/// gathered along the way.
#[verifier::ext_equal]
pub ghost struct DrainOut {
    pub state: AppV,
    pub draw: bool,
    pub clear: bool,
}

/// Consuming queued actions front to back, at most `fuel` of them.
pub open spec fn drain_spec(s: AppV, fuel: nat) -> DrainOut
    decreases fuel,
{
    if fuel == 0 || s.queue.len() == 0 {
        DrainOut { state: s, draw: false, clear: false }
    } else {
        let a = s.queue[0];
        let s1 = dispatch_spec(AppV { queue: s.queue.drop_first(), ..s }, a);
        let rest = drain_spec(s1, (fuel - 1) as nat);
        DrainOut {
            state: rest.state,
            draw: rest.draw || action_draws(a),
            clear: rest.clear || a is ClearScreen,
        }
    }
}

/// The queue drained to exhaustion.
pub open spec fn drained(s: AppV) -> DrainOut {
    drain_spec(s, drain_fuel(s))
}

/// The actions one terminal event puts on the queue: key events go through
/// the component's mode machine, timer pulses become `Tick` and `Render`,
/// a resize becomes `Resize`, an input failure becomes `Error`, and mouse
/// events are forwarded to a component set that ignores them.
pub open spec fn event_actions_spec(h: HomeV, e: EventV) -> Seq<ActionV> {
    match e {
        EventV::Key(k) => key_actions_spec(h, k),
        EventV::Mouse(_c, _r) => Seq::empty(),
        EventV::Resize(w, h2) => seq![ActionV::Resize(w, h2)],
        EventV::Tick => seq![ActionV::Tick],
        EventV::Render => seq![ActionV::Render],
        EventV::Error(m) => seq![ActionV::Error(m)],
    }
}

/// The orchestrator state after one terminal event is taken in but before
/// the queue is drained.
pub open spec fn event_state_spec(s: AppV, e: EventV) -> AppV {
    let home1 = match e {
        EventV::Key(k) => key_state_spec(s.home, k),
        _ => s.home,
    };
    AppV { home: home1, queue: s.queue + event_actions_spec(s.home, e), ..s }
}

proof fn lemma_count_send_push(q: Seq<ActionV>, a: ActionV)
    ensures
        count_send(q.push(a)) == count_send(q) + (if a is SendQuery {
            1nat
        } else {
            0nat
        }),
    decreases q.len(),
{
    if q.len() == 0 {
        assert(q.push(a)[0] == a);
        assert(q.push(a).drop_first() =~= q);
    } else {
        assert(q.push(a)[0] == q[0]);
        assert(q.push(a).drop_first() =~= q.drop_first().push(a));
        lemma_count_send_push(q.drop_first(), a);
    }
}

impl App {
    /// The structural invariant: the editor is well formed.
    pub open spec fn wf(&self) -> bool {
        input_wf(self@.home.input)
    }

    /// The between-iterations invariant: well formed, and the queue was
    /// drained by the previous pass.
    pub open spec fn ready(&self) -> bool {
        self.wf() && self@.queue.len() == 0
    }

    pub fn new() -> (a: App)
        ensures
            a@ == initial_app(),
            a.ready(),
    {
        let a = App {
            home: Home::new(),
            bus: ActionBus::new(),
            should_quit: false,
            pending_query: Option::None,
            size: Option::None,
            last_error: Option::None,
        };
        assert(a@ =~= initial_app());
        a
    }

    /// Consumes one action: the orchestrator's own effects, then the
    /// component's update.
    fn dispatch(&mut self, a: Action) -> (r: (bool, bool))
        ensures
            final(self)@ == dispatch_spec(old(self)@, a@),
            r.0 == action_draws(a@),
            r.1 == (a@ is ClearScreen),
    {
        let draws: bool;
        let clears: bool;
        match &a {
            Action::Quit => {
                self.should_quit = true;
                draws = false;
                clears = false;
            },
            Action::Resize(w, h) => {
                self.size = Option::Some((*w, *h));
                draws = true;
                clears = false;
            },
            Action::Error(s) => {
                self.last_error = Option::Some(clone_chars(s));
                draws = false;
                clears = false;
            },
            Action::SendQuery(s) => {
                self.pending_query = Option::Some(clone_chars(s));
                self.bus.send(Action::EnterProcessing);
                draws = false;
                clears = false;
            },
            Action::Render => {
                draws = true;
                clears = false;
            },
            Action::Update => {
                draws = true;
                clears = false;
            },
            Action::ClearScreen => {
                draws = true;
                clears = true;
            },
            _ => {
                draws = false;
                clears = false;
            },
        }
        let _follow_up = self.home.update(a);
        assert(self@ =~= dispatch_spec(old(self)@, a@));
        (draws, clears)
    }

    /// Drains the action queue to exhaustion, in order, consuming each
    /// action through [`dispatch_spec`]; reports whether a redraw (or a
    /// screen clear) was requested along the way. The explicit queue keeps
    /// follow-up recursion bounded: every consumed submission injects
    /// exactly one follow-up, so the drain always terminates.
    pub fn process_actions(&mut self) -> (r: StepReport)
        requires
            old(self).wf(),
        ensures
            final(self)@ == drained(old(self)@).state,
            r.needs_draw == drained(old(self)@).draw,
            r.clear_screen == drained(old(self)@).clear,
            final(self)@.queue.len() == 0,
            final(self).wf(),
    {
        let ghost s0 = self@;
        let ghost fuel0 = drain_fuel(s0);
        let ghost mut fuel: nat = fuel0;
        let mut draw = false;
        let mut clear = false;
        loop
            invariant
                s0 == old(self)@,
                input_wf(self@.home.input),
                fuel >= drain_fuel(self@),
                drained(s0).state == drain_spec(self@, fuel).state,
                drained(s0).draw == (draw || drain_spec(self@, fuel).draw),
                drained(s0).clear == (clear || drain_spec(self@, fuel).clear),
            decreases fuel,
        {
            let ghost pre = self@;
            match self.bus.pop() {
                Option::None => {
                    proof {
                        assert(pre.queue.len() == 0);
                        assert(self@ =~= pre);
                        assert(drain_spec(pre, fuel).state == pre);
                        assert(!drain_spec(pre, fuel).draw);
                        assert(!drain_spec(pre, fuel).clear);
                        assert(drained(s0).state == self@);
                    }
                    return StepReport { needs_draw: draw, clear_screen: clear };
                },
                Option::Some(a) => {
                    let ghost av = a@;
                    assert(pre.queue.len() > 0);
                    assert(fuel > 0);
                    let ghost mid = AppV { queue: pre.queue.drop_first(), ..pre };
                    assert(self@ =~= mid);
                    let flags = self.dispatch(a);
                    draw = draw || flags.0;
                    clear = clear || flags.1;
                    proof {
                        assert(self@ == dispatch_spec(mid, av));
                        assert(drain_spec(pre, fuel).state == drain_spec(self@, (fuel - 1) as nat).state);
                        assert(drain_spec(pre, fuel).draw == (drain_spec(self@, (fuel - 1) as nat).draw
                            || action_draws(av)));
                        assert(drain_spec(pre, fuel).clear == (drain_spec(self@, (fuel - 1) as nat).clear
                            || av is ClearScreen));
                        if av is SendQuery {
                            lemma_count_send_push(pre.queue.drop_first(), ActionV::EnterProcessing);
                        }
                        assert(drain_fuel(self@) <= drain_fuel(pre) - 1);
                        fuel = (fuel - 1) as nat;
                    }
                },
            }
        }
    }

    /// Takes one terminal event in: key events go to the component, whose
    /// returned actions are queued (never applied inline); timer pulses,
    /// resizes, and input failures are queued as their actions.
    pub fn handle_event(&mut self, e: Event)
        requires
            old(self).wf(),
        ensures
            final(self)@ == event_state_spec(old(self)@, e@),
            final(self).wf(),
    {
        let ghost s0 = self@;
        match e {
            Event::Key(k) => {
                let acts = self.home.handle_key_events(k);
                let n = acts.len();
                let mut i: usize = 0;
                proof {
                    assert(self@.queue =~= s0.queue + acts@.map_values(|a: Action| a@).take(0));
                }
                while i < n
                    invariant
                        i <= n,
                        n == acts@.len(),
                        self@ == (AppV {
                            home: key_state_spec(s0.home, k),
                            queue: s0.queue + acts@.map_values(|a: Action| a@).take(i as int),
                            ..s0
                        }),
                        acts@.map_values(|a: Action| a@) == key_actions_spec(s0.home, k),
                        input_wf(self@.home.input),
                    decreases n - i,
                {
                    let ghost qpre = self@.queue;
                    self.bus.send(acts[i].dup());
                    proof {
                        assert(self@.queue =~= s0.queue + acts@.map_values(|a: Action| a@).take(
                            i as int + 1,
                        ));
                    }
                    i = i + 1;
                }
                proof {
                    assert(acts@.map_values(|a: Action| a@).take(n as int) =~= acts@.map_values(
                        |a: Action| a@,
                    ));
                    assert(self@ =~= event_state_spec(s0, EventV::Key(k)));
                }
            },
            Event::Mouse(_c, _r) => {
                proof {
                    assert(self@.queue =~= s0.queue + event_actions_spec(s0.home, e@));
                    assert(self@ =~= event_state_spec(s0, e@));
                }
            },
            Event::Resize(w, h) => {
                self.bus.send(Action::Resize(w, h));
                proof {
                    assert(self@.queue =~= s0.queue + event_actions_spec(s0.home, e@));
                    assert(self@ =~= event_state_spec(s0, e@));
                }
            },
            Event::Tick => {
                self.bus.send(Action::Tick);
                proof {
                    assert(self@.queue =~= s0.queue + event_actions_spec(s0.home, e@));
                    assert(self@ =~= event_state_spec(s0, e@));
                }
            },
            Event::Render => {
                self.bus.send(Action::Render);
                proof {
                    assert(self@.queue =~= s0.queue + event_actions_spec(s0.home, e@));
                    assert(self@ =~= event_state_spec(s0, e@));
                }
            },
            Event::Error(m) => {
                self.bus.send(Action::Error(m));
                proof {
                    assert(self@.queue =~= s0.queue + event_actions_spec(s0.home, e@));
                    assert(self@ =~= event_state_spec(s0, e@));
                }
            },
        }
    }

    /// One full pass of the event loop: take the event in, then drain the
    /// queue. Between passes the queue is empty.
    pub fn step(&mut self, e: Event) -> (r: StepReport)
        requires
            old(self).ready(),
        ensures
            final(self)@ == drained(event_state_spec(old(self)@, e@)).state,
            r.needs_draw == drained(event_state_spec(old(self)@, e@)).draw,
            r.clear_screen == drained(event_state_spec(old(self)@, e@)).clear,
            final(self).ready(),
            // a resize is never dropped: the recorded size is the one from the event
            e@ matches EventV::Resize(w, h) ==> final(self)@.size == Option::Some((w, h))
                && r.needs_draw,
    {
        let ghost s0 = self@;
        self.handle_event(e);
        let r = self.process_actions();
        proof {
            match e@ {
                EventV::Resize(w, h) => {
                    let s1 = event_state_spec(s0, e@);
                    assert(s1.queue =~= seq![ActionV::Resize(w, h)]);
                    assert(s1.queue.drop_first() =~= Seq::<ActionV>::empty());
                    reveal_with_fuel(count_send, 3);
                    reveal_with_fuel(drain_spec, 3);
                    assert(drain_fuel(s1) == 1);
                    assert(drained(s1).state == dispatch_spec(
                        AppV { queue: Seq::empty(), ..s1 },
                        ActionV::Resize(w, h),
                    ));
                },
                _ => {},
            }
        }
        r
    }

    /// Hands out the query that a submission parked for the remote chat
    /// service, clearing it.
    pub fn take_pending_query(&mut self) -> (q: Option<Vec<char>>)
        ensures
            view_opt_chars(q) == old(self)@.pending_query,
            final(self)@ == (AppV { pending_query: Option::None, ..old(self)@ }),
    {
        let q = self.pending_query.take();
        assert(self@ =~= (AppV { pending_query: Option::None, ..old(self)@ }));
        q
    }

    /// Feeds the remote chat service's answer back into the loop: a reply
    /// is appended to the conversation, a failure becomes a recorded error
    /// and the conversation stays as it was; either way `ExitProcessing`
    /// drives the component back to `Normal` mode and the parked query is
    /// cleared.
    pub fn handle_remote_result(&mut self, res: Result<Message, AppError>) -> (r: StepReport)
        requires
            old(self).ready(),
        ensures
            final(self).ready(),
            final(self)@.home.mode == Mode::Normal,
            final(self)@.pending_query is None,
            res matches Ok(m) ==> final(self)@.home.conversation == old(self)@.home.conversation.push(
                m@,
            ) && final(self)@.last_error == old(self)@.last_error,
            res matches Err(e) ==> final(self)@.home.conversation == old(self)@.home.conversation
                && final(self)@.last_error == Option::Some(message_spec(e@)),
            final(self)@.home.input == old(self)@.home.input,
            final(self)@.home.keymap == old(self)@.home.keymap,
            final(self)@.should_quit == old(self)@.should_quit,
            final(self)@.size == old(self)@.size,
    {
        let ghost s0 = self@;
        match res {
            Result::Ok(m) => {
                self.home.conversation.push(m);
                self.bus.send(Action::ExitProcessing);
                let ghost s1 = self@;
                self.pending_query = Option::None;
                let r = self.process_actions();
                proof {
                    let s2 = AppV { pending_query: Option::None, ..s1 };
                    assert(self@ == drained(s2).state);
                    assert(s2.queue =~= seq![ActionV::ExitProcessing]);
                    assert(s2.queue.drop_first() =~= Seq::<ActionV>::empty());
                    reveal_with_fuel(count_send, 3);
                    reveal_with_fuel(drain_spec, 3);
                    assert(drain_fuel(s2) == 1);
                    assert(drained(s2).state == dispatch_spec(
                        AppV { queue: Seq::empty(), ..s2 },
                        ActionV::ExitProcessing,
                    ));
                }
                r
            },
            Result::Err(e) => {
                self.bus.send(Action::Error(e.message()));
                self.bus.send(Action::ExitProcessing);
                let ghost s1 = self@;
                self.pending_query = Option::None;
                let r = self.process_actions();
                proof {
                    let s2 = AppV { pending_query: Option::None, ..s1 };
                    assert(self@ == drained(s2).state);
                    assert(s2.queue =~= seq![ActionV::Error(message_spec(e@)), ActionV::ExitProcessing]);
                    assert(s2.queue.drop_first() =~= seq![ActionV::ExitProcessing]);
                    assert(s2.queue.drop_first().drop_first() =~= Seq::<ActionV>::empty());
                    reveal_with_fuel(count_send, 4);
                    reveal_with_fuel(drain_spec, 4);
                    assert(drain_fuel(s2) == 2);
                }
                r
            },
        }
    }
}

/// Law: submitting a query — `Enter` while in `Insert` mode — first resets
/// the editor (the buffer is empty before anything reaches the queue, and
/// nothing has been appended at that point), then draining the queue
/// appends exactly one `User` entry holding the typed text, and only after
/// that is `Processing` entered; the text is parked for the remote chat
/// service.
pub proof fn lemma_submit_query(s: AppV, k: KeyEvent)
    requires
        s.queue.len() == 0,
        s.home.mode == Mode::Insert,
        k.code == KeyCode::Enter,
    ensures
        ({
            let t = s.home.input.text;
            let s1 = event_state_spec(s, EventV::Key(k));
            let d = drained(s1);
            // (a) the editor is reset first, before any queued action runs
            &&& s1.home.input == empty_input()
            &&& s1.home.conversation == s.home.conversation
            // (b) then exactly one User entry with the typed text is appended
            &&& d.state.home.conversation == s.home.conversation.push(
                (MessageV { role: Role::User, content: t }),
            )
            // (c) and only at the end of the drain is Processing entered
            &&& d.state.home.mode == Mode::Processing
            &&& d.state.pending_query == Option::Some(t)
            &&& d.state.home.input == empty_input()
        }),
{
    let t = s.home.input.text;
    let s1 = event_state_spec(s, EventV::Key(k));
    let q1 = seq![ActionV::SendQuery(t), ActionV::EnterNormal];
    assert(s1.queue =~= q1);
    assert(q1.drop_first() =~= seq![ActionV::EnterNormal]);
    assert(seq![ActionV::EnterNormal].drop_first() =~= Seq::<ActionV>::empty());
    reveal_with_fuel(count_send, 4);
    assert(count_send(s1.queue) == 1);
    assert(drain_fuel(s1) == 3);
    // first drain step: the submission itself
    let sa = dispatch_spec(AppV { queue: q1.drop_first(), ..s1 }, ActionV::SendQuery(t));
    assert(sa.queue =~= seq![ActionV::EnterNormal, ActionV::EnterProcessing]);
    assert(sa.home.conversation == s.home.conversation.push(
        (MessageV { role: Role::User, content: t }),
    ));
    assert(sa.home.mode != Mode::Processing);
    // second: the mode returns to Normal
    let sb = dispatch_spec(AppV { queue: sa.queue.drop_first(), ..sa }, ActionV::EnterNormal);
    assert(sa.queue.drop_first() =~= seq![ActionV::EnterProcessing]);
    assert(sb.queue =~= seq![ActionV::EnterProcessing]);
    // third: the orchestrator's follow-up enters Processing
    let sc = dispatch_spec(AppV { queue: sb.queue.drop_first(), ..sb }, ActionV::EnterProcessing);
    assert(sb.queue.drop_first() =~= Seq::<ActionV>::empty());
    assert(sc.queue.len() == 0);
    reveal_with_fuel(drain_spec, 5);
    assert(drain_spec(s1, 3).state == drain_spec(sa, 2).state);
    assert(drain_spec(sa, 2).state == drain_spec(sb, 1).state);
    assert(drain_spec(sb, 1).state == drain_spec(sc, 0).state);
    assert(drained(s1).state == sc);
}

} // verus!
