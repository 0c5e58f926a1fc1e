use vstd::prelude::*;

verus! {

/// The terminal settings that a session changes.
#[derive(Clone, Copy, Debug, PartialEq, Eq, Structural)]
pub struct TerminalMode {
    /// Keys arrive one by one, unechoed.
    pub raw: bool,
    /// The alternate screen buffer is shown.
    pub alternate_screen: bool,
    /// Mouse actions are reported as input.
    pub mouse_capture: bool,
    pub cursor_visible: bool,
}

/// One operation on the terminal device.
#[derive(Clone, Copy, Debug, PartialEq, Eq, Structural)]
pub enum TerminalOp {
    EnableRawMode,
    DisableRawMode,
    EnterAlternateScreen,
    LeaveAlternateScreen,
    EnableMouseCapture,
    DisableMouseCapture,
    ShowCursor,
}

/// Cooked input, main screen, no mouse capture, cursor shown.
pub open spec fn cooked() -> TerminalMode {
    TerminalMode { raw: false, alternate_screen: false, mouse_capture: false, cursor_visible: true }
}

/// The mode after `op`, starting from `m`.
pub open spec fn applied(m: TerminalMode, op: TerminalOp) -> TerminalMode {
    match op {
        TerminalOp::EnableRawMode => TerminalMode { raw: true, ..m },
        TerminalOp::DisableRawMode => TerminalMode { raw: false, ..m },
        TerminalOp::EnterAlternateScreen => TerminalMode { alternate_screen: true, ..m },
        TerminalOp::LeaveAlternateScreen => TerminalMode { alternate_screen: false, ..m },
        TerminalOp::EnableMouseCapture => TerminalMode { mouse_capture: true, ..m },
        TerminalOp::DisableMouseCapture => TerminalMode { mouse_capture: false, ..m },
        TerminalOp::ShowCursor => TerminalMode { cursor_visible: true, ..m },
    }
}

/// The mode after the operations of `ops`, in order, starting from `m`.
pub open spec fn applied_all(m: TerminalMode, ops: Seq<TerminalOp>) -> TerminalMode
    decreases ops.len(),
{
    if ops.len() == 0 {
        m
    } else {
        applied_all(applied(m, ops[0]), ops.drop_first())
    }
}

/// Raw input, alternate screen, mouse capture: the order in which a session
/// takes the terminal.
pub open spec fn enter_seq() -> Seq<TerminalOp> {
    seq![
        TerminalOp::EnableRawMode,
        TerminalOp::EnterAlternateScreen,
        TerminalOp::EnableMouseCapture,
    ]
}

/// The order in which the terminal is given back: cooked input, main screen,
/// no mouse capture, cursor shown.
pub open spec fn restore_seq() -> Seq<TerminalOp> {
    seq![
        TerminalOp::DisableRawMode,
        TerminalOp::LeaveAlternateScreen,
        TerminalOp::DisableMouseCapture,
        TerminalOp::ShowCursor,
    ]
}

/// The mode a session holds the terminal in, starting from `pre`.
pub open spec fn entered(pre: TerminalMode) -> TerminalMode {
    applied_all(pre, enter_seq())
}

/// The mode after the restoring sequence, starting from `m`.
pub open spec fn restored(m: TerminalMode) -> TerminalMode {
    applied_all(m, restore_seq())
}

impl TerminalMode {
    /// The mode of a terminal that no session holds.
    pub fn cooked() -> (r: TerminalMode)
        ensures
            r == cooked(),
    {
        TerminalMode { raw: false, alternate_screen: false, mouse_capture: false, cursor_visible: true }
    }

    /// Records that `op` was performed on the terminal.
    pub fn apply(&mut self, op: TerminalOp)
        ensures
            *final(self) == applied(*old(self), op),
    {
        match op {
            TerminalOp::EnableRawMode => self.raw = true,
            TerminalOp::DisableRawMode => self.raw = false,
            TerminalOp::EnterAlternateScreen => self.alternate_screen = true,
            TerminalOp::LeaveAlternateScreen => self.alternate_screen = false,
            TerminalOp::EnableMouseCapture => self.mouse_capture = true,
            TerminalOp::DisableMouseCapture => self.mouse_capture = false,
            TerminalOp::ShowCursor => self.cursor_visible = true,
        }
    }

    /// Records that the operations of `ops` were performed, in order.
    pub fn apply_all(&mut self, ops: &Vec<TerminalOp>)
        ensures
            *final(self) == applied_all(*old(self), ops@),
    {
        let ghost start = *self;
        let mut i: usize = 0;
        assert(ops@.skip(0) =~= ops@);
        while i < ops.len()
            invariant
                0 <= i <= ops@.len(),
                applied_all(start, ops@) == applied_all(*self, ops@.skip(i as int)),
            decreases ops@.len() - i,
        {
            assert(ops@.skip(i as int).drop_first() =~= ops@.skip(i + 1));
            self.apply(ops[i]);
            i = i + 1;
        }
        assert(ops@.skip(i as int) =~= Seq::<TerminalOp>::empty());
    }
}

/// The operations that take the terminal for a session.
pub fn enter_ops() -> (r: Vec<TerminalOp>)
    ensures
        r@ == enter_seq(),
{
    let r = vec![
        TerminalOp::EnableRawMode,
        TerminalOp::EnterAlternateScreen,
        TerminalOp::EnableMouseCapture,
    ];
    assert(r@ =~= enter_seq());
    r
}

/// The operations that give the terminal back, on every way out of a
/// session, a fault included.
pub fn restore_ops() -> (r: Vec<TerminalOp>)
    ensures
        r@ == restore_seq(),
{
    let r = vec![
        TerminalOp::DisableRawMode,
        TerminalOp::LeaveAlternateScreen,
        TerminalOp::DisableMouseCapture,
        TerminalOp::ShowCursor,
    ];
    assert(r@ =~= restore_seq());
    r
}

/// Whatever mode the terminal was left in, the restoring sequence brings it
/// back to cooked input on the main screen, without mouse capture and with
/// the cursor shown.
pub proof fn lemma_restored_is_cooked(m: TerminalMode)
    ensures
        restored(m) == cooked(),
{
    reveal_with_fuel(applied_all, 5);
}

/// A session entered from a cooked terminal and then restored leaves the
/// terminal exactly as it found it.
pub proof fn lemma_session_round_trip(pre: TerminalMode)
    requires
        pre == cooked(),
    ensures
        entered(pre) == (TerminalMode {
            raw: true,
            alternate_screen: true,
            mouse_capture: true,
            cursor_visible: pre.cursor_visible,
        }),
        restored(entered(pre)) == pre,
{
    reveal_with_fuel(applied_all, 4);
    lemma_restored_is_cooked(entered(pre));
}

/// Restoring twice in a row ends in the same mode as restoring once.
pub proof fn lemma_restore_idempotent(m: TerminalMode)
    ensures
        restored(restored(m)) == restored(m),
{
    lemma_restored_is_cooked(m);
    lemma_restored_is_cooked(restored(m));
}

} // verus!
