//! What has been typed so far, and what it selects.
//!
//! Events reach the overlay in batches, one batch per dispatch of the
//! display connection. Each key press of a batch updates the selection, and
//! after each batch the selection is tested once: cancelled, an exact label,
//! or still pending.
use vstd::prelude::*;
use crate::hints::HintMap;
use crate::keyboard::KeyPress;
use crate::window::DesktopWindow;

verus! {

/// The result of testing the selection after a batch of events.
pub enum Verdict {
    /// Neither cancelled nor an exact label: wait for more input.
    Pending,
    /// The cancel key was pressed: nothing is selected.
    Cancelled,
    /// What was typed is exactly a label: this is its window.
    Selected(DesktopWindow),
}

/// The text typed so far and whether the cancel key was pressed.
pub struct Selection {
    pub typed: String,
    pub cancelled: bool,
}

/// A selection as a mathematical value.
pub struct SelectionView {
    pub typed: Seq<char>,
    pub cancelled: bool,
}

impl View for Selection {
    type V = SelectionView;

    open spec fn view(&self) -> SelectionView {
        SelectionView { typed: self.typed@, cancelled: self.cancelled }
    }
}

/// Nothing typed, not cancelled.
pub open spec fn initial_selection() -> SelectionView {
    SelectionView { typed: Seq::empty(), cancelled: false }
}

/// The selection after one key press.
pub open spec fn after_press(s: SelectionView, p: KeyPress) -> SelectionView {
    match p {
        KeyPress::Cancel => SelectionView { typed: s.typed, cancelled: true },
        KeyPress::Erase => SelectionView {
            typed: if s.typed.len() > 0 {
                s.typed.drop_last()
            } else {
                s.typed
            },
            cancelled: s.cancelled,
        },
        KeyPress::Text(t) => SelectionView { typed: s.typed + t@, cancelled: s.cancelled },
        KeyPress::Ignore => s,
    }
}

/// The selection after a run of key presses, in order.
pub open spec fn after_presses(s: SelectionView, ps: Seq<KeyPress>) -> SelectionView
    decreases ps.len(),
{
    if ps.len() == 0 {
        s
    } else {
        after_press(after_presses(s, ps.drop_last()), ps.last())
    }
}

/// The test made after each batch.
pub open spec fn verdict_of(hints: Map<Seq<char>, DesktopWindow>, s: SelectionView) -> Verdict {
    if s.cancelled {
        Verdict::Cancelled
    } else if hints.contains_key(s.typed) {
        Verdict::Selected(hints[s.typed])
    } else {
        Verdict::Pending
    }
}

/// The selection after the batches, in order.
pub open spec fn after_batches(s: SelectionView, batches: Seq<Seq<KeyPress>>) -> SelectionView
    decreases batches.len(),
{
    if batches.len() == 0 {
        s
    } else {
        after_presses(after_batches(s, batches.drop_last()), batches.last())
    }
}

/// The verdict of a session fed with the batches: the first verdict, after
/// some batch, that is not `Pending`; `Pending` if there is none.
pub open spec fn session_verdict(
    hints: Map<Seq<char>, DesktopWindow>,
    s: SelectionView,
    batches: Seq<Seq<KeyPress>>,
) -> Verdict
    decreases batches.len(),
{
    if batches.len() == 0 {
        Verdict::Pending
    } else {
        let earlier = session_verdict(hints, s, batches.drop_last());
        if earlier is Pending {
            verdict_of(hints, after_batches(s, batches))
        } else {
            earlier
        }
    }
}

/// The batches of a synthetic event source as sequences.
pub open spec fn batches_view(batches: Seq<Vec<KeyPress>>) -> Seq<Seq<KeyPress>> {
    batches.map_values(|b: Vec<KeyPress>| b@)
}

/// Relies on String::pop: it removes and returns the last character, and
/// leaves an empty string as it is.
#[verifier::external_body]
fn pop_char(s: &mut String) -> (r: Option<char>)
    ensures
        old(s)@.len() == 0 ==> r is None && final(s)@ == old(s)@,
        old(s)@.len() > 0 ==> r == Some(old(s)@.last()) && final(s)@ == old(s)@.drop_last(),
{
    s.pop()
}

impl Selection {
    /// Nothing typed, not cancelled.
    pub fn new() -> (r: Selection)
        ensures
            r@ == initial_selection(),
    {
        Selection { typed: String::new(), cancelled: false }
    }

    /// Applies one key press: cancel sets the flag, erase removes the last
    /// typed character if there is one, text is appended.
    pub fn press(&mut self, p: &KeyPress)
        ensures
            final(self)@ == after_press(old(self)@, *p),
    {
        match p {
            KeyPress::Cancel => {
                self.cancelled = true;
            },
            KeyPress::Erase => {
                let _ = pop_char(&mut self.typed);
            },
            KeyPress::Text(t) => {
                self.typed.append(t.as_str());
            },
            KeyPress::Ignore => {},
        }
    }

    /// Applies a batch of key presses in order.
    pub fn press_all(&mut self, ps: &Vec<KeyPress>)
        ensures
            final(self)@ == after_presses(old(self)@, ps@),
    {
        let ghost start = self@;
        let mut i: usize = 0;
        while i < ps.len()
            invariant
                i <= ps.len(),
                self@ == after_presses(start, ps@.take(i as int)),
            decreases ps.len() - i,
        {
            assert(ps@.take(i + 1).drop_last() =~= ps@.take(i as int));
            self.press(&ps[i]);
            i += 1;
        }
        assert(ps@.take(ps.len() as int) =~= ps@);
    }

    /// Cancelled, an exact label, or pending.
    pub fn verdict(&self, hints: &HintMap) -> (r: Verdict)
        ensures
            r == verdict_of(hints@, self@),
    {
        if self.cancelled {
            Verdict::Cancelled
        } else {
            match hints.get(&self.typed) {
                Some(w) => Verdict::Selected(w),
                None => Verdict::Pending,
            }
        }
    }
}

/// Once a session has a verdict, later batches do not change it.
proof fn lemma_verdict_settled(
    hints: Map<Seq<char>, DesktopWindow>,
    s: SelectionView,
    batches: Seq<Seq<KeyPress>>,
    k: int,
)
    requires
        0 <= k <= batches.len(),
        !(session_verdict(hints, s, batches.take(k)) is Pending),
    ensures
        session_verdict(hints, s, batches) == session_verdict(hints, s, batches.take(k)),
    decreases batches.len(),
{
    if k == batches.len() {
        assert(batches.take(k) =~= batches);
    } else {
        assert(batches.drop_last().take(k) =~= batches.take(k));
        lemma_verdict_settled(hints, s, batches.drop_last(), k);
    }
}

/// Runs a session on a synthetic event source: applies the batches in order
/// and stops at the first verdict that is not `Pending`.
pub fn run_batches(hints: &HintMap, batches: &Vec<Vec<KeyPress>>) -> (r: Verdict)
    ensures
        r == session_verdict(hints@, initial_selection(), batches_view(batches@)),
{
    let ghost bv = batches_view(batches@);
    let mut sel = Selection::new();
    let mut i: usize = 0;
    while i < batches.len()
        invariant
            i <= batches.len(),
            bv == batches_view(batches@),
            sel@ == after_batches(initial_selection(), bv.take(i as int)),
            session_verdict(hints@, initial_selection(), bv.take(i as int)) is Pending,
        decreases batches.len() - i,
    {
        assert(bv.take(i + 1).drop_last() =~= bv.take(i as int));
        assert(bv.take(i + 1).last() == batches@[i as int]@);
        sel.press_all(&batches[i]);
        let v = sel.verdict(hints);
        match v {
            Verdict::Pending => {},
            _ => {
                proof {
                    lemma_verdict_settled(hints@, initial_selection(), bv, i + 1);
                }
                return v;
            },
        }
        i += 1;
    }
    assert(bv.take(batches.len() as int) =~= bv);
    Verdict::Pending
}

/// A key press that types exactly the character `c`.
pub open spec fn types_char(p: KeyPress, c: char) -> bool {
    p matches KeyPress::Text(t) && t@ == seq![c]
}

/// Presses that each type one character append those characters in order.
proof fn lemma_presses_type(s: SelectionView, ps: Seq<KeyPress>, cs: Seq<char>)
    requires
        ps.len() == cs.len(),
        forall|k: int| 0 <= k < ps.len() ==> types_char(#[trigger] ps[k], cs[k]),
    ensures
        after_presses(s, ps) == (SelectionView { typed: s.typed + cs, cancelled: s.cancelled }),
    decreases ps.len(),
{
    if ps.len() == 0 {
        assert(s.typed + cs =~= s.typed);
    } else {
        let n = ps.len() - 1;
        lemma_presses_type(s, ps.drop_last(), cs.drop_last());
        assert(types_char(ps[n], cs[n]));
        assert(s.typed + cs.drop_last() + seq![cs[n]] =~= s.typed + cs);
    }
}

/// Pressing one run of keys and then another is pressing their concatenation.
proof fn lemma_presses_concat(s: SelectionView, a: Seq<KeyPress>, b: Seq<KeyPress>)
    ensures
        after_presses(s, a + b) == after_presses(after_presses(s, a), b),
    decreases b.len(),
{
    if b.len() == 0 {
        assert(a + b =~= a);
    } else {
        assert((a + b).drop_last() =~= a + b.drop_last());
        lemma_presses_concat(s, a, b.drop_last());
    }
}

/// Feeding batches is feeding all their presses in one run.
proof fn lemma_batches_flat(s: SelectionView, batches: Seq<Seq<KeyPress>>)
    ensures
        after_batches(s, batches) == after_presses(s, batches.flatten_alt()),
    decreases batches.len(),
{
    if batches.len() > 0 {
        lemma_batches_flat(s, batches.drop_last());
        lemma_presses_concat(s, batches.drop_last().flatten_alt(), batches.last());
    }
}

/// The presses of the first `m` batches begin the presses of all of them.
proof fn lemma_flat_prefix(batches: Seq<Seq<KeyPress>>, m: int)
    requires
        0 <= m <= batches.len(),
    ensures
        batches.take(m).flatten_alt().len() <= batches.flatten_alt().len(),
        forall|k: int|
            0 <= k < batches.take(m).flatten_alt().len() ==> #[trigger] batches.take(m).flatten_alt()[k]
                == batches.flatten_alt()[k],
{
    vstd::seq_lib::lemma_flatten_alt_concat(batches.take(m), batches.skip(m));
    assert(batches.take(m) + batches.skip(m) =~= batches);
}

proof fn lemma_label_progress(
    hints: Map<Seq<char>, DesktopWindow>,
    label: Seq<char>,
    batches: Seq<Seq<KeyPress>>,
    m: int,
)
    requires
        hints.contains_key(label),
        forall|k: int| 0 <= k < label.len() ==> !hints.contains_key(#[trigger] label.take(k)),
        batches.flatten_alt().len() == label.len(),
        forall|k: int|
            0 <= k < label.len() ==> types_char(#[trigger] batches.flatten_alt()[k], label[k]),
        1 <= m <= batches.len(),
    ensures
        session_verdict(hints, initial_selection(), batches.take(m)) == (if batches.take(
            m,
        ).flatten_alt().len() == label.len() {
            Verdict::Selected(hints[label])
        } else {
            Verdict::Pending
        }),
    decreases m,
{
    let s0 = initial_selection();
    let pre = batches.take(m);
    let flat = pre.flatten_alt();
    let c = flat.len() as int;
    lemma_flat_prefix(batches, m);
    lemma_batches_flat(s0, pre);
    assert forall|k: int| 0 <= k < flat.len() implies types_char(
        #[trigger] flat[k],
        label.take(c)[k],
    ) by {
        assert(flat[k] == batches.flatten_alt()[k]);
    }
    lemma_presses_type(s0, flat, label.take(c));
    assert(s0.typed + label.take(c) =~= label.take(c));
    assert(after_batches(s0, pre).typed == label.take(c));
    assert(!after_batches(s0, pre).cancelled);
    assert(pre.drop_last() =~= batches.take(m - 1));
    if c == label.len() {
        assert(label.take(c) =~= label);
    }
    if m > 1 {
        lemma_label_progress(hints, label, batches, m - 1);
        lemma_flat_prefix(batches, m - 1);
        assert(batches.take(m - 1) =~= pre.take(m - 1));
        lemma_flat_prefix(pre, m - 1);
    } else {
        assert(pre.drop_last().len() == 0);
    }
}

/// Typing exactly the characters of a label, in order, selects its window,
/// however the key presses are split into batches. This holds when no
/// proper prefix of the label is itself a label: otherwise a batch that ends
/// on that prefix selects the prefix's window first.
pub proof fn lemma_typing_label_selects(
    hints: Map<Seq<char>, DesktopWindow>,
    label: Seq<char>,
    batches: Seq<Seq<KeyPress>>,
)
    requires
        hints.contains_key(label),
        forall|k: int| 0 <= k < label.len() ==> !hints.contains_key(#[trigger] label.take(k)),
        batches.len() > 0,
        batches.flatten().len() == label.len(),
        forall|k: int| 0 <= k < label.len() ==> types_char(#[trigger] batches.flatten()[k], label[k]),
    ensures
        session_verdict(hints, initial_selection(), batches) == Verdict::Selected(hints[label]),
{
    batches.lemma_flatten_and_flatten_alt_are_equivalent();
    lemma_label_progress(hints, label, batches, batches.len() as int);
    assert(batches.take(batches.len() as int) =~= batches);
}

/// A run of presses that holds the cancel key leaves the selection cancelled.
proof fn lemma_cancel_in_presses(s: SelectionView, ps: Seq<KeyPress>, j: int)
    requires
        0 <= j < ps.len(),
        ps[j] is Cancel,
    ensures
        after_presses(s, ps).cancelled,
    decreases ps.len(),
{
    if j < ps.len() - 1 {
        lemma_cancel_in_presses(s, ps.drop_last(), j);
    }
}

/// Pressing the cancel key in a batch, while the session is still pending,
/// ends it with no selection, whatever else that batch or later ones type.
pub proof fn lemma_cancel_ends_session(
    hints: Map<Seq<char>, DesktopWindow>,
    s: SelectionView,
    batches: Seq<Seq<KeyPress>>,
    k: int,
    j: int,
)
    requires
        0 <= k < batches.len(),
        session_verdict(hints, s, batches.take(k)) is Pending,
        0 <= j < batches[k].len(),
        batches[k][j] is Cancel,
    ensures
        session_verdict(hints, s, batches) == Verdict::Cancelled,
{
    let pre = batches.take(k + 1);
    assert(pre.drop_last() =~= batches.take(k));
    assert(pre.last() == batches[k]);
    lemma_cancel_in_presses(after_batches(s, pre.drop_last()), batches[k], j);
    lemma_verdict_settled(hints, s, batches, k + 1);
}

/// Presses without the cancel key leave the cancel flag as it was.
proof fn lemma_no_cancel_in_presses(s: SelectionView, ps: Seq<KeyPress>)
    requires
        forall|j: int| 0 <= j < ps.len() ==> !(#[trigger] ps[j] is Cancel),
    ensures
        after_presses(s, ps).cancelled == s.cancelled,
    decreases ps.len(),
{
    if ps.len() > 0 {
        lemma_no_cancel_in_presses(s, ps.drop_last());
        assert(!(ps[ps.len() - 1] is Cancel));
    }
}

/// Without the cancel key a session is never cancelled: text that matches no
/// label, or that no label begins with, leaves it pending.
pub proof fn lemma_never_cancelled_implicitly(
    hints: Map<Seq<char>, DesktopWindow>,
    s: SelectionView,
    batches: Seq<Seq<KeyPress>>,
)
    requires
        !s.cancelled,
        forall|k: int, j: int|
            0 <= k < batches.len() && 0 <= j < batches[k].len() ==> !(#[trigger] batches[k][j] is Cancel),
    ensures
        !after_batches(s, batches).cancelled,
        !(session_verdict(hints, s, batches) is Cancelled),
    decreases batches.len(),
{
    if batches.len() > 0 {
        let n = batches.len() - 1;
        assert forall|k: int, j: int|
            0 <= k < batches.drop_last().len() && 0 <= j < batches.drop_last()[k].len() implies !(
            #[trigger] batches.drop_last()[k][j] is Cancel) by {
            assert(batches.drop_last()[k] == batches[k]);
        }
        lemma_never_cancelled_implicitly(hints, s, batches.drop_last());
        assert forall|j: int| 0 <= j < batches.last().len() implies !(
        #[trigger] batches.last()[j] is Cancel) by {
            assert(batches.last()[j] == batches[n][j]);
        }
        lemma_no_cancel_in_presses(after_batches(s, batches.drop_last()), batches.last());
    }
}

} // verus!
