use epd_waveshare::color::OctColor;
use vstd::prelude::*;

verus! {

/// Draws allowed after a full clear before the next draw clears the panel first.
pub const WIPE_AFTER: usize = 10;

/// One operation on the panel transport, in the order the controller wants them done.
#[derive(Clone, Copy, Debug)]
pub enum PanelAction {
    /// Set the colour the transport clears and pads with.
    SetBackground(OctColor),
    /// Clear the whole panel.
    Clear,
    /// Run the caller's drawing on the back buffer.
    Render,
    /// Push the back buffer and refresh the panel.
    UpdateAndDisplay,
}

/// The operations of a full clear.
pub open spec fn wipe_actions() -> Seq<PanelAction> {
    seq![PanelAction::SetBackground(OctColor::HiZ), PanelAction::Clear]
}

/// The operations that paint one frame.
pub open spec fn paint_actions() -> Seq<PanelAction> {
    seq![PanelAction::SetBackground(OctColor::White), PanelAction::Render, PanelAction::UpdateAndDisplay]
}

/// A draw made with `count` frames since the last clear clears first when the count it
/// raises passes the limit.
pub open spec fn draw_wipes(count: nat) -> bool {
    count + 1 > WIPE_AFTER
}

/// The operations of a draw made with `count` frames since the last clear.
pub open spec fn draw_actions(count: nat) -> Seq<PanelAction> {
    if draw_wipes(count) {
        wipe_actions() + paint_actions()
    } else {
        paint_actions()
    }
}

/// The count after a draw whose operations all succeeded.
pub open spec fn count_after_draw(count: nat) -> nat {
    if draw_wipes(count) {
        0
    } else {
        count + 1
    }
}

/// The count after `n` successful draws that follow a clear.
pub open spec fn count_after(n: nat) -> nat
    decreases n,
{
    if n == 0 {
        0
    } else {
        count_after_draw(count_after((n - 1) as nat))
    }
}

/// How many of the first `n` successful draws after a clear cleared the panel.
pub open spec fn wipes_in(n: nat) -> nat
    decreases n,
{
    if n == 0 {
        0
    } else {
        wipes_in((n - 1) as nat) + if draw_wipes(count_after((n - 1) as nat)) {
            1nat
        } else {
            0nat
        }
    }
}

/// Refresh bookkeeping of the panel: how many frames were drawn since the last full clear.
pub struct Controller {
    pub frames_since_clear: usize,
}

impl Controller {
    /// A controller for a panel that is about to be cleared; the caller performs
    /// `wipe` and reports it with `cleared`.
    pub fn new() -> (r: Controller)
        ensures
            r.frames_since_clear == 0,
    {
        Controller { frames_since_clear: 0 }
    }

    /// The operations of a full clear.
    pub fn wipe(&self) -> (r: Vec<PanelAction>)
        ensures
            r@ == wipe_actions(),
    {
        let r = vec![PanelAction::SetBackground(OctColor::HiZ), PanelAction::Clear];
        assert(r@ =~= wipe_actions());
        r
    }

    /// The transport cleared the panel.
    pub fn cleared(&mut self)
        ensures
            final(self).frames_since_clear == 0,
    {
        self.frames_since_clear = 0;
    }

    /// Starts a draw: counts it, whether or not it later succeeds, and returns the operations
    /// to perform in order. A failed draw is not rolled back.
    pub fn draw(&mut self) -> (r: Vec<PanelAction>)
        ensures
            final(self).frames_since_clear == if old(self).frames_since_clear == usize::MAX {
                usize::MAX as int
            } else {
                old(self).frames_since_clear + 1
            },
            r@ == draw_actions(old(self).frames_since_clear as nat),
    {
        if self.frames_since_clear < usize::MAX {
            self.frames_since_clear = self.frames_since_clear + 1;
        }
        let mut r: Vec<PanelAction> = Vec::new();
        if self.frames_since_clear > WIPE_AFTER {
            r.push(PanelAction::SetBackground(OctColor::HiZ));
            r.push(PanelAction::Clear);
        }
        r.push(PanelAction::SetBackground(OctColor::White));
        r.push(PanelAction::Render);
        r.push(PanelAction::UpdateAndDisplay);
        proof {
            if draw_wipes(old(self).frames_since_clear as nat) {
                assert(r@ =~= wipe_actions() + paint_actions());
            } else {
                assert(r@ =~= paint_actions());
            }
        }
        r
    }
}

/// After a clear, the first ten draws do not clear the panel and the eleventh does, exactly
/// once, before it pushes its frame; the count then starts again from zero.
pub proof fn lemma_eleventh_draw_wipes()
    ensures
        forall|i: nat| i < 10 ==> !draw_wipes(#[trigger] count_after(i)),
        draw_wipes(count_after(10)),
        wipes_in(11) == 1,
        count_after(11) == 0,
        draw_actions(count_after(10)).index_of(PanelAction::Clear) < draw_actions(
            count_after(10),
        ).index_of(PanelAction::UpdateAndDisplay),
{
    reveal_with_fuel(count_after, 12);
    reveal_with_fuel(wipes_in, 12);
    assert forall|i: nat| i < 10 implies !draw_wipes(#[trigger] count_after(i)) by {
        assert(count_after(i) == i) by {
            lemma_count_after_small(i);
        }
    }
    lemma_count_after_small(10);
    let acts = draw_actions(count_after(10));
    assert(acts =~= seq![
        PanelAction::SetBackground(OctColor::HiZ),
        PanelAction::Clear,
        PanelAction::SetBackground(OctColor::White),
        PanelAction::Render,
        PanelAction::UpdateAndDisplay,
    ]);
    assert(acts.index_of(PanelAction::Clear) == 1) by {
        assert(acts[1] == PanelAction::Clear);
        assert(acts[0] != PanelAction::Clear);
    }
    assert(acts.index_of(PanelAction::UpdateAndDisplay) == 4) by {
        assert(acts[4] == PanelAction::UpdateAndDisplay);
        assert(forall|k: int| 0 <= k < 4 ==> acts[k] != PanelAction::UpdateAndDisplay);
    }
}

proof fn lemma_count_after_small(i: nat)
    requires
        i <= 10,
    ensures
        count_after(i) == i,
    decreases i,
{
    if i > 0 {
        lemma_count_after_small((i - 1) as nat);
    }
}

} // verus!
