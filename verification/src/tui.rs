use vstd::prelude::*;

verus! {

/// The observable switches of the attached terminal that entering the
/// program's screen flips and leaving must restore.
#[derive(Clone, Copy, Debug, PartialEq, Eq, Structural)]
pub struct TermFlags {
    pub raw: bool,
    pub alternate_screen: bool,
    pub cursor_hidden: bool,
    pub mouse_capture: bool,
    pub bracketed_paste: bool,
}

/// A terminal that no full-screen program holds: canonical input, main
/// screen, visible cursor, no capture.
pub open spec fn cooked() -> TermFlags {
    TermFlags {
        raw: false,
        alternate_screen: false,
        cursor_hidden: false,
        mouse_capture: false,
        bracketed_paste: false,
    }
}

/// One switch of terminal state, for the caller to perform on the device.
/// Each switch sets its flag absolutely, so performing it twice equals
/// performing it once.
#[derive(Clone, Copy, Debug, PartialEq, Eq, Structural)]
pub enum TerminalOp {
    EnableRaw,
    DisableRaw,
    EnterAlternateScreen,
    LeaveAlternateScreen,
    HideCursor,
    ShowCursor,
    EnableMouseCapture,
    DisableMouseCapture,
    EnableBracketedPaste,
    DisableBracketedPaste,
}

pub open spec fn apply_op(f: TermFlags, op: TerminalOp) -> TermFlags {
    match op {
        TerminalOp::EnableRaw => TermFlags { raw: true, ..f },
        TerminalOp::DisableRaw => TermFlags { raw: false, ..f },
        TerminalOp::EnterAlternateScreen => TermFlags { alternate_screen: true, ..f },
        TerminalOp::LeaveAlternateScreen => TermFlags { alternate_screen: false, ..f },
        TerminalOp::HideCursor => TermFlags { cursor_hidden: true, ..f },
        TerminalOp::ShowCursor => TermFlags { cursor_hidden: false, ..f },
        TerminalOp::EnableMouseCapture => TermFlags { mouse_capture: true, ..f },
        TerminalOp::DisableMouseCapture => TermFlags { mouse_capture: false, ..f },
        TerminalOp::EnableBracketedPaste => TermFlags { bracketed_paste: true, ..f },
        TerminalOp::DisableBracketedPaste => TermFlags { bracketed_paste: false, ..f },
    }
}

/// The terminal state after a sequence of switches, performed in order.
pub open spec fn apply_ops(f: TermFlags, ops: Seq<TerminalOp>) -> TermFlags
    decreases ops.len(),
{
    if ops.len() == 0 {
        f
    } else {
        apply_ops(apply_op(f, ops[0]), ops.drop_first())
    }
}

/// The switches entry performs, in order: raw mode, alternate screen,
/// hidden cursor, then the captures the configuration asks for.
pub open spec fn enter_ops_spec(mouse: bool, paste: bool) -> Seq<TerminalOp> {
    seq![
        TerminalOp::EnableRaw,
        TerminalOp::EnterAlternateScreen,
        TerminalOp::HideCursor,
    ] + (if mouse {
        seq![TerminalOp::EnableMouseCapture]
    } else {
        Seq::empty()
    }) + (if paste {
        seq![TerminalOp::EnableBracketedPaste]
    } else {
        Seq::empty()
    })
}

/// The switches exit performs: every change of entry undone, in strict
/// reverse order.
pub open spec fn exit_ops_spec(mouse: bool, paste: bool) -> Seq<TerminalOp> {
    (if paste {
        seq![TerminalOp::DisableBracketedPaste]
    } else {
        Seq::empty()
    }) + (if mouse {
        seq![TerminalOp::DisableMouseCapture]
    } else {
        Seq::empty()
    }) + seq![
        TerminalOp::ShowCursor,
        TerminalOp::LeaveAlternateScreen,
        TerminalOp::DisableRaw,
    ]
}

proof fn lemma_apply_concat(f: TermFlags, a: Seq<TerminalOp>, b: Seq<TerminalOp>)
    ensures
        apply_ops(f, a + b) == apply_ops(apply_ops(f, a), b),
    decreases a.len(),
{
    if a.len() == 0 {
        assert(a + b =~= b);
    } else {
        assert((a + b)[0] == a[0]);
        assert((a + b).drop_first() =~= a.drop_first() + b);
        lemma_apply_concat(apply_op(f, a[0]), a.drop_first(), b);
    }
}

/// What the exit sequence leaves behind, whatever state it starts from.
proof fn lemma_exit_result(f: TermFlags, mouse: bool, paste: bool)
    ensures
        apply_ops(f, exit_ops_spec(mouse, paste)) == (TermFlags {
            raw: false,
            alternate_screen: false,
            cursor_hidden: false,
            mouse_capture: if mouse {
                false
            } else {
                f.mouse_capture
            },
            bracketed_paste: if paste {
                false
            } else {
                f.bracketed_paste
            },
        }),
{
    let pa = if paste {
        seq![TerminalOp::DisableBracketedPaste]
    } else {
        Seq::<TerminalOp>::empty()
    };
    let mo = if mouse {
        seq![TerminalOp::DisableMouseCapture]
    } else {
        Seq::<TerminalOp>::empty()
    };
    let tail = seq![
        TerminalOp::ShowCursor,
        TerminalOp::LeaveAlternateScreen,
        TerminalOp::DisableRaw,
    ];
    assert((pa + mo) + tail =~= pa + (mo + tail));
    lemma_apply_concat(f, pa, mo + tail);
    let f1 = apply_ops(f, pa);
    lemma_apply_concat(f1, mo, tail);
    let f2 = apply_ops(f1, mo);
    reveal_with_fuel(apply_ops, 5);
    assert(tail.drop_first() =~= seq![TerminalOp::LeaveAlternateScreen, TerminalOp::DisableRaw]);
    assert(tail.drop_first().drop_first() =~= seq![TerminalOp::DisableRaw]);
    assert(tail.drop_first().drop_first().drop_first() =~= Seq::<TerminalOp>::empty());
    if paste {
        assert(pa.drop_first() =~= Seq::<TerminalOp>::empty());
    }
    if mouse {
        assert(mo.drop_first() =~= Seq::<TerminalOp>::empty());
    }
    assert(exit_ops_spec(mouse, paste) == pa + mo + tail);
}

/// What the entry sequence leaves behind.
proof fn lemma_enter_result(f: TermFlags, mouse: bool, paste: bool)
    ensures
        apply_ops(f, enter_ops_spec(mouse, paste)) == (TermFlags {
            raw: true,
            alternate_screen: true,
            cursor_hidden: true,
            mouse_capture: if mouse {
                true
            } else {
                f.mouse_capture
            },
            bracketed_paste: if paste {
                true
            } else {
                f.bracketed_paste
            },
        }),
{
    let head = seq![
        TerminalOp::EnableRaw,
        TerminalOp::EnterAlternateScreen,
        TerminalOp::HideCursor,
    ];
    let mo = if mouse {
        seq![TerminalOp::EnableMouseCapture]
    } else {
        Seq::<TerminalOp>::empty()
    };
    let pa = if paste {
        seq![TerminalOp::EnableBracketedPaste]
    } else {
        Seq::<TerminalOp>::empty()
    };
    lemma_apply_concat(f, head, mo);
    lemma_apply_concat(f, head + mo, pa);
    reveal_with_fuel(apply_ops, 5);
    assert(head.drop_first() =~= seq![TerminalOp::EnterAlternateScreen, TerminalOp::HideCursor]);
    assert(head.drop_first().drop_first() =~= seq![TerminalOp::HideCursor]);
    assert(head.drop_first().drop_first().drop_first() =~= Seq::<TerminalOp>::empty());
    if mouse {
        assert(mo.drop_first() =~= Seq::<TerminalOp>::empty());
    }
    if paste {
        assert(pa.drop_first() =~= Seq::<TerminalOp>::empty());
    }
    assert(enter_ops_spec(mouse, paste) == (head + mo) + pa);
}

/// Law: performing the exit sequence twice leaves the terminal exactly as
/// performing it once does, from any starting state.
pub proof fn lemma_exit_idempotent(f: TermFlags, mouse: bool, paste: bool)
    ensures
        apply_ops(apply_ops(f, exit_ops_spec(mouse, paste)), exit_ops_spec(mouse, paste))
            == apply_ops(f, exit_ops_spec(mouse, paste)),
{
    lemma_exit_result(f, mouse, paste);
    lemma_exit_result(apply_ops(f, exit_ops_spec(mouse, paste)), mouse, paste);
}

/// Law: from a terminal no full-screen program holds, entering and then
/// leaving — on any path, including a panic unwound to the teardown hook —
/// restores the terminal to exactly its prior state.
pub proof fn lemma_enter_then_exit_restores(mouse: bool, paste: bool)
    ensures
        apply_ops(apply_ops(cooked(), enter_ops_spec(mouse, paste)), exit_ops_spec(mouse, paste))
            == cooked(),
{
    lemma_enter_result(cooked(), mouse, paste);
    lemma_exit_result(apply_ops(cooked(), enter_ops_spec(mouse, paste)), mouse, paste);
}

/// The terminal lifecycle manager: tracks whether the program holds the
/// terminal and hands out the switch sequences the caller must perform on
/// the device. It owns the single live handle for the process lifetime;
/// the caller performs the returned switches in order.
#[derive(Debug)]
pub struct Tui {
    pub entered: bool,
    pub mouse: bool,
    pub paste: bool,
}

impl Tui {
    pub fn new(mouse: bool, paste: bool) -> (t: Tui)
        ensures
            !t.entered,
            t.mouse == mouse,
            t.paste == paste,
    {
        Tui { entered: false, mouse, paste }
    }

    fn enter_ops(&self) -> (ops: Vec<TerminalOp>)
        ensures
            ops@ == enter_ops_spec(self.mouse, self.paste),
    {
        let mut ops: Vec<TerminalOp> = Vec::new();
        ops.push(TerminalOp::EnableRaw);
        ops.push(TerminalOp::EnterAlternateScreen);
        ops.push(TerminalOp::HideCursor);
        if self.mouse {
            ops.push(TerminalOp::EnableMouseCapture);
        }
        if self.paste {
            ops.push(TerminalOp::EnableBracketedPaste);
        }
        assert(ops@ =~= enter_ops_spec(self.mouse, self.paste));
        ops
    }

    fn exit_ops(&self) -> (ops: Vec<TerminalOp>)
        ensures
            ops@ == exit_ops_spec(self.mouse, self.paste),
    {
        let mut ops: Vec<TerminalOp> = Vec::new();
        if self.paste {
            ops.push(TerminalOp::DisableBracketedPaste);
        }
        if self.mouse {
            ops.push(TerminalOp::DisableMouseCapture);
        }
        ops.push(TerminalOp::ShowCursor);
        ops.push(TerminalOp::LeaveAlternateScreen);
        ops.push(TerminalOp::DisableRaw);
        assert(ops@ =~= exit_ops_spec(self.mouse, self.paste));
        ops
    }

    /// Claims the terminal: on the first call the full entry sequence, on
    /// a call while already held, nothing.
    pub fn enter(&mut self) -> (ops: Vec<TerminalOp>)
        ensures
            final(self).entered,
            final(self).mouse == old(self).mouse,
            final(self).paste == old(self).paste,
            !old(self).entered ==> ops@ == enter_ops_spec(old(self).mouse, old(self).paste),
            old(self).entered ==> ops@ == Seq::<TerminalOp>::empty(),
    {
        if self.entered {
            let ops: Vec<TerminalOp> = Vec::new();
            assert(ops@ =~= Seq::<TerminalOp>::empty());
            ops
        } else {
            self.entered = true;
            self.enter_ops()
        }
    }

    /// Releases the terminal, undoing every change of entry in strict
    /// reverse order. Calling it again is a no-op, never an error: the
    /// second call changes nothing and asks for nothing.
    pub fn exit(&mut self) -> (ops: Vec<TerminalOp>)
        ensures
            !final(self).entered,
            final(self).mouse == old(self).mouse,
            final(self).paste == old(self).paste,
            old(self).entered ==> ops@ == exit_ops_spec(old(self).mouse, old(self).paste),
            !old(self).entered ==> ops@ == Seq::<TerminalOp>::empty(),
    {
        if self.entered {
            self.entered = false;
            self.exit_ops()
        } else {
            let ops: Vec<TerminalOp> = Vec::new();
            assert(ops@ =~= Seq::<TerminalOp>::empty());
            ops
        }
    }

    /// Yields the terminal to another foreground process: the terminal is
    /// left in its pre-entry state while suspended.
    pub fn suspend(&mut self) -> (ops: Vec<TerminalOp>)
        ensures
            !final(self).entered,
            final(self).mouse == old(self).mouse,
            final(self).paste == old(self).paste,
            old(self).entered ==> ops@ == exit_ops_spec(old(self).mouse, old(self).paste),
            !old(self).entered ==> ops@ == Seq::<TerminalOp>::empty(),
    {
        self.exit()
    }

    /// Reclaims the terminal after a suspension.
    pub fn resume(&mut self) -> (ops: Vec<TerminalOp>)
        ensures
            final(self).entered,
            final(self).mouse == old(self).mouse,
            final(self).paste == old(self).paste,
            !old(self).entered ==> ops@ == enter_ops_spec(old(self).mouse, old(self).paste),
            old(self).entered ==> ops@ == Seq::<TerminalOp>::empty(),
    {
        self.enter()
    }
}

} // verus!
