//! The discrete part of the remapping engine: which virtual buttons, keys
//! and mouse buttons a controller state activates through the mapping
//! table, and which press and release events follow from one tick to the
//! next.

use vstd::prelude::*;
use crate::mapping::{ButtonMapping, GamepadState, MappingTarget, PhysicalButton};

verus! {

/// Whether an entry of the table is a discrete control that is pressed.
pub open spec fn entry_fires(m: ButtonMapping, state: GamepadState) -> bool {
    !m.source.spec_is_axis() && m.source.pressed_in(state)
}

/// The targets of all entries that fire in `state`, in table order.
pub open spec fn fired_targets(table: Seq<ButtonMapping>, state: GamepadState) -> Seq<
    MappingTarget,
>
    decreases table.len(),
{
    if table.len() == 0 {
        Seq::empty()
    } else {
        fired_targets(table.drop_last(), state) + (if entry_fires(table.last(), state) {
            table.last().targets@
        } else {
            Seq::empty()
        })
    }
}

/// The virtual-pad bits that a target contributes.
pub open spec fn target_bits(t: MappingTarget) -> u16 {
    match t {
        MappingTarget::Xbox(bits) => bits,
        _ => 0,
    }
}

/// The union of the virtual-pad bits of `ts`.
pub open spec fn button_mask(ts: Seq<MappingTarget>) -> u16
    decreases ts.len(),
{
    if ts.len() == 0 {
        0
    } else {
        button_mask(ts.drop_last()) | target_bits(ts.last())
    }
}

/// What the pressed discrete controls activate in one tick.
#[derive(Debug)]
pub struct DiscreteOutputs {
    /// Button bitmask of the virtual pad.
    pub buttons: u16,
    /// A pressed control drives the virtual left trigger to its full value.
    pub left_trigger: bool,
    /// A pressed control drives the virtual right trigger to its full value.
    pub right_trigger: bool,
    /// Key codes that are to be held, each once.
    pub keys: Vec<u16>,
    /// Mouse buttons that are to be held, each once.
    pub mouse_buttons: Vec<u8>,
}

/// The key codes among `ts`, each once, in the order of their first
/// occurrence.
pub open spec fn distinct_keys(ts: Seq<MappingTarget>) -> Seq<u16>
    decreases ts.len(),
{
    if ts.len() == 0 {
        Seq::empty()
    } else {
        let rest = distinct_keys(ts.drop_last());
        match ts.last() {
            MappingTarget::Keyboard(code) => if rest.contains(code) {
                rest
            } else {
                rest.push(code)
            },
            _ => rest,
        }
    }
}

/// The mouse buttons among `ts`, each once, in the order of their first
/// occurrence.
pub open spec fn distinct_buttons(ts: Seq<MappingTarget>) -> Seq<u8>
    decreases ts.len(),
{
    if ts.len() == 0 {
        Seq::empty()
    } else {
        let rest = distinct_buttons(ts.drop_last());
        match ts.last() {
            MappingTarget::Mouse(id) => if rest.contains(id) {
                rest
            } else {
                rest.push(id)
            },
            _ => rest,
        }
    }
}

impl DiscreteOutputs {
    /// Whether `self` is what the targets `ts` activate: the union of their
    /// button bits, a trigger flag where a trigger target occurs, and their
    /// key codes and mouse buttons, each once.
    pub open spec fn summarises(&self, ts: Seq<MappingTarget>) -> bool {
        &&& self.buttons == button_mask(ts)
        &&& self.left_trigger == ts.contains(MappingTarget::XboxLT)
        &&& self.right_trigger == ts.contains(MappingTarget::XboxRT)
        &&& self.keys@ == distinct_keys(ts)
        &&& self.mouse_buttons@ == distinct_buttons(ts)
    }
}

fn holds_key(keys: &Vec<u16>, code: u16) -> (r: bool)
    ensures
        r == keys@.contains(code),
{
    let mut i: usize = 0;
    while i < keys.len()
        invariant
            i <= keys.len(),
            forall|j: int| 0 <= j < i ==> keys@[j] != code,
        decreases keys.len() - i,
    {
        if keys[i] == code {
            return true;
        }
        i = i + 1;
    }
    false
}

fn holds_button(buttons: &Vec<u8>, id: u8) -> (r: bool)
    ensures
        r == buttons@.contains(id),
{
    let mut i: usize = 0;
    while i < buttons.len()
        invariant
            i <= buttons.len(),
            forall|j: int| 0 <= j < i ==> buttons@[j] != id,
        decreases buttons.len() - i,
    {
        if buttons[i] == id {
            return true;
        }
        i = i + 1;
    }
    false
}

proof fn lemma_push_contains<T>(s: Seq<T>, x: T, y: T)
    ensures
        s.push(x).contains(y) <==> (s.contains(y) || y == x),
{
    if s.contains(y) {
        let i = choose|i: int| 0 <= i < s.len() && s[i] == y;
        assert(s.push(x)[i] == y);
    }
    if y == x {
        assert(s.push(x)[s.len() as int] == y);
    }
}

proof fn lemma_push_no_duplicates<T>(s: Seq<T>, x: T)
    requires
        s.no_duplicates(),
        !s.contains(x),
    ensures
        s.push(x).no_duplicates(),
{
    assert forall|i: int, j: int|
        0 <= i < s.push(x).len() && 0 <= j < s.push(x).len() && i != j implies s.push(x)[i]
        != s.push(x)[j] by {
        if i < s.len() && j < s.len() {
        } else if i < s.len() {
            assert(s.contains(s[i]));
        } else {
            assert(s.contains(s[j]));
        }
    }
}

fn absorb(out: &mut DiscreteOutputs, t: MappingTarget, Ghost(ts): Ghost<Seq<MappingTarget>>)
    requires
        old(out).summarises(ts),
    ensures
        final(out).summarises(ts.push(t)),
{
    let plain: u16 = out.buttons;
    proof {
        assert(ts.push(t).drop_last() =~= ts);
        assert(button_mask(ts.push(t)) == button_mask(ts) | target_bits(t));
        assert(plain | 0 == plain) by (bit_vector);
        assert forall|y: MappingTarget| #[trigger]
            ts.push(t).contains(y) <==> (ts.contains(y) || y == t) by {
            lemma_push_contains(ts, t, y);
        }
    }
    match t {
        MappingTarget::Xbox(bits) => {
            out.buttons = out.buttons | bits;
        },
        MappingTarget::XboxLT => {
            out.left_trigger = true;
        },
        MappingTarget::XboxRT => {
            out.right_trigger = true;
        },
        MappingTarget::Keyboard(code) => {
            if !holds_key(&out.keys, code) {
                out.keys.push(code);
            }
        },
        MappingTarget::Mouse(id) => {
            if !holds_button(&out.mouse_buttons, id) {
                out.mouse_buttons.push(id);
            }
        },
        _ => {},
    }
}

fn absorb_all(
    out: &mut DiscreteOutputs,
    targets: &Vec<MappingTarget>,
    Ghost(ts): Ghost<Seq<MappingTarget>>,
)
    requires
        old(out).summarises(ts),
    ensures
        final(out).summarises(ts + targets@),
{
    let mut j: usize = 0;
    assert(ts + targets@.take(0) =~= ts);
    while j < targets.len()
        invariant
            j <= targets.len(),
            out.summarises(ts + targets@.take(j as int)),
        decreases targets.len() - j,
    {
        assert((ts + targets@.take(j as int)).push(targets@[j as int]) =~= ts + targets@.take(
            j + 1,
        ));
        absorb(out, targets[j], Ghost(ts + targets@.take(j as int)));
        j = j + 1;
    }
    assert(targets@.take(targets.len() as int) =~= targets@);
}

/// Collects what the pressed discrete controls activate: every target of
/// every entry whose source is a discrete control pressed in `state`.
/// Entries with an axis source contribute nothing here.
pub fn resolve_discrete(table: &Vec<ButtonMapping>, state: &GamepadState) -> (out:
    DiscreteOutputs)
    ensures
        out.summarises(fired_targets(table@, *state)),
        out.keys@.no_duplicates(),
        out.mouse_buttons@.no_duplicates(),
{
    let mut out = DiscreteOutputs {
        buttons: 0,
        left_trigger: false,
        right_trigger: false,
        keys: Vec::new(),
        mouse_buttons: Vec::new(),
    };
    let mut i: usize = 0;
    assert(table@.take(0) =~= Seq::<ButtonMapping>::empty());
    while i < table.len()
        invariant
            i <= table.len(),
            out.summarises(fired_targets(table@.take(i as int), *state)),
        decreases table.len() - i,
    {
        let ghost done = fired_targets(table@.take(i as int), *state);
        proof {
            let next = table@.take(i + 1);
            assert(next.drop_last() =~= table@.take(i as int));
            assert(next.last() == table@[i as int]);
        }
        let entry = &table[i];
        if !entry.source.is_axis() && entry.source.get_value(state) {
            absorb_all(&mut out, &entry.targets, Ghost(done));
        } else {
            assert(done + Seq::<MappingTarget>::empty() =~= done);
        }
        i = i + 1;
    }
    assert(table@.take(table.len() as int) =~= table@);
    proof {
        lemma_distinct(fired_targets(table@, *state));
    }
    out
}

/// The distinct key codes and mouse buttons of `ts` are those that occur
/// among `ts`, and none occurs twice.
pub proof fn lemma_distinct(ts: Seq<MappingTarget>)
    ensures
        distinct_keys(ts).no_duplicates(),
        distinct_buttons(ts).no_duplicates(),
        forall|k: u16| #[trigger]
            distinct_keys(ts).contains(k) <==> ts.contains(MappingTarget::Keyboard(k)),
        forall|b: u8| #[trigger]
            distinct_buttons(ts).contains(b) <==> ts.contains(MappingTarget::Mouse(b)),
    decreases ts.len(),
{
    if ts.len() > 0 {
        let rest = ts.drop_last();
        let last = ts.last();
        lemma_distinct(rest);
        assert(ts =~= rest.push(last));
        assert forall|y: MappingTarget| #[trigger]
            ts.contains(y) <==> (rest.contains(y) || y == last) by {
            lemma_push_contains(rest, last, y);
        }
        match last {
            MappingTarget::Keyboard(code) => {
                let keys = distinct_keys(rest);
                if !keys.contains(code) {
                    lemma_push_no_duplicates(keys, code);
                    assert forall|k: u16| #[trigger]
                        keys.push(code).contains(k) <==> (keys.contains(k) || k == code) by {
                        lemma_push_contains(keys, code, k);
                    }
                }
            },
            MappingTarget::Mouse(id) => {
                let buttons = distinct_buttons(rest);
                if !buttons.contains(id) {
                    lemma_push_no_duplicates(buttons, id);
                    assert forall|b: u8| #[trigger]
                        buttons.push(id).contains(b) <==> (buttons.contains(b) || b == id) by {
                        lemma_push_contains(buttons, id, b);
                    }
                }
            },
            _ => {},
        }
    }
}

/// The elements of `xs` that do not occur in `ys`, in the order of `xs`.
pub open spec fn without<T>(xs: Seq<T>, ys: Seq<T>) -> Seq<T>
    decreases xs.len(),
{
    if xs.len() == 0 {
        Seq::empty()
    } else if ys.contains(xs.last()) {
        without(xs.drop_last(), ys)
    } else {
        without(xs.drop_last(), ys).push(xs.last())
    }
}

/// `without` keeps exactly the elements of `xs` that `ys` lacks, and keeps
/// them apart where `xs` does.
pub proof fn lemma_without<T>(xs: Seq<T>, ys: Seq<T>)
    ensures
        forall|x: T| #[trigger] without(xs, ys).contains(x) <==> xs.contains(x) && !ys.contains(x),
        xs.no_duplicates() ==> without(xs, ys).no_duplicates(),
        without(xs, ys).len() <= xs.len(),
    decreases xs.len(),
{
    if xs.len() > 0 {
        let rest = xs.drop_last();
        let last = xs.last();
        lemma_without(rest, ys);
        assert(xs =~= rest.push(last));
        assert forall|x: T| #[trigger] xs.contains(x) <==> rest.contains(x) || x == last by {
            lemma_push_contains(rest, last, x);
        }
        if !ys.contains(last) {
            assert forall|x: T| #[trigger]
                without(xs, ys).contains(x) <==> without(rest, ys).contains(x) || x == last by {
                lemma_push_contains(without(rest, ys), last, x);
            }
        }
        if xs.no_duplicates() {
            assert(rest.no_duplicates());
            assert(!rest.contains(last)) by {
                if rest.contains(last) {
                    let i = choose|i: int| 0 <= i < rest.len() && rest[i] == last;
                    assert(xs[i] == xs[xs.len() - 1]);
                }
            }
            if !ys.contains(last) {
                lemma_push_no_duplicates(without(rest, ys), last);
            }
        }
    }
}

/// A synthesised input event for the operating system.
#[derive(Debug, Clone, Copy, PartialEq, Eq, Structural)]
pub enum InputEvent {
    /// A key goes down or up.
    Key { code: u16, down: bool },
    /// A mouse button goes down or up.
    MouseButton { id: u8, down: bool },
}

/// The key events for `codes`, all down or all up.
pub open spec fn key_events(codes: Seq<u16>, down: bool) -> Seq<InputEvent> {
    codes.map_values(|c: u16| InputEvent::Key { code: c, down: down })
}

/// The mouse button events for `ids`, all down or all up.
pub open spec fn button_events(ids: Seq<u8>, down: bool) -> Seq<InputEvent> {
    ids.map_values(|b: u8| InputEvent::MouseButton { id: b, down: down })
}

/// The events that lead from the held keys and buttons to the current
/// ones: a press for each key that is newly present, a release for each
/// held key that is gone, then the same for the mouse buttons.
pub open spec fn transition_events(
    held_keys: Seq<u16>,
    held_buttons: Seq<u8>,
    keys: Seq<u16>,
    buttons: Seq<u8>,
) -> Seq<InputEvent> {
    key_events(without(keys, held_keys), true) + key_events(without(held_keys, keys), false)
        + button_events(without(buttons, held_buttons), true) + button_events(
        without(held_buttons, buttons),
        false,
    )
}

/// The synthesised keys and mouse buttons that are currently held down.
#[derive(Debug)]
pub struct HeldInputs {
    pub keys: Vec<u16>,
    pub mouse_buttons: Vec<u8>,
}

fn push_key_events(events: &mut Vec<InputEvent>, from: &Vec<u16>, other: &Vec<u16>, down: bool)
    ensures
        final(events)@ == old(events)@ + key_events(without(from@, other@), down),
{
    let ghost start = events@;
    let mut i: usize = 0;
    assert(from@.take(0) =~= Seq::<u16>::empty());
    assert(start + key_events(Seq::<u16>::empty(), down) =~= start);
    while i < from.len()
        invariant
            i <= from.len(),
            events@ == start + key_events(without(from@.take(i as int), other@), down),
        decreases from.len() - i,
    {
        let ghost seen = without(from@.take(i as int), other@);
        proof {
            let next = from@.take(i + 1);
            assert(next.drop_last() =~= from@.take(i as int));
            assert(next.last() == from@[i as int]);
        }
        if !holds_key(other, from[i]) {
            events.push(InputEvent::Key { code: from[i], down: down });
            assert(events@ =~= start + key_events(seen.push(from@[i as int]), down));
        }
        i = i + 1;
    }
    assert(from@.take(from.len() as int) =~= from@);
}

fn push_button_events(events: &mut Vec<InputEvent>, from: &Vec<u8>, other: &Vec<u8>, down: bool)
    ensures
        final(events)@ == old(events)@ + button_events(without(from@, other@), down),
{
    let ghost start = events@;
    let mut i: usize = 0;
    assert(from@.take(0) =~= Seq::<u8>::empty());
    assert(start + button_events(Seq::<u8>::empty(), down) =~= start);
    while i < from.len()
        invariant
            i <= from.len(),
            events@ == start + button_events(without(from@.take(i as int), other@), down),
        decreases from.len() - i,
    {
        let ghost seen = without(from@.take(i as int), other@);
        proof {
            let next = from@.take(i + 1);
            assert(next.drop_last() =~= from@.take(i as int));
            assert(next.last() == from@[i as int]);
        }
        if !holds_button(other, from[i]) {
            events.push(InputEvent::MouseButton { id: from[i], down: down });
            assert(events@ =~= start + button_events(seen.push(from@[i as int]), down));
        }
        i = i + 1;
    }
    assert(from@.take(from.len() as int) =~= from@);
}

impl HeldInputs {
    /// No key or button occurs twice.
    pub open spec fn well_formed(&self) -> bool {
        self.keys@.no_duplicates() && self.mouse_buttons@.no_duplicates()
    }

    /// Nothing is held.
    pub fn new() -> (r: Self)
        ensures
            r.keys@.len() == 0,
            r.mouse_buttons@.len() == 0,
            r.well_formed(),
    {
        HeldInputs { keys: Vec::new(), mouse_buttons: Vec::new() }
    }

    /// Moves to the keys and mouse buttons that are to be held now, and
    /// returns the events that take the operating system there: presses of
    /// what is new, releases of what is gone. What stays held gets no event.
    pub fn retarget(&mut self, keys: Vec<u16>, mouse_buttons: Vec<u8>) -> (events: Vec<InputEvent>)
        ensures
            events@ == transition_events(
                old(self).keys@,
                old(self).mouse_buttons@,
                keys@,
                mouse_buttons@,
            ),
            final(self).keys@ == keys@,
            final(self).mouse_buttons@ == mouse_buttons@,
    {
        let mut events: Vec<InputEvent> = Vec::new();
        push_key_events(&mut events, &keys, &self.keys, true);
        push_key_events(&mut events, &self.keys, &keys, false);
        push_button_events(&mut events, &mouse_buttons, &self.mouse_buttons, true);
        push_button_events(&mut events, &self.mouse_buttons, &mouse_buttons, false);
        assert(events@ =~= transition_events(
            self.keys@,
            self.mouse_buttons@,
            keys@,
            mouse_buttons@,
        ));
        self.keys = keys;
        self.mouse_buttons = mouse_buttons;
        events
    }
}

/// Whether an event is called for: a press of what is current and not yet
/// held, or a release of what is held and no longer current.
pub open spec fn event_is_due(
    e: InputEvent,
    held_keys: Seq<u16>,
    held_buttons: Seq<u8>,
    keys: Seq<u16>,
    buttons: Seq<u8>,
) -> bool {
    match e {
        InputEvent::Key { code, down } => if down {
            keys.contains(code) && !held_keys.contains(code)
        } else {
            held_keys.contains(code) && !keys.contains(code)
        },
        InputEvent::MouseButton { id, down } => if down {
            buttons.contains(id) && !held_buttons.contains(id)
        } else {
            held_buttons.contains(id) && !buttons.contains(id)
        },
    }
}

proof fn lemma_concat_contains<T>(a: Seq<T>, b: Seq<T>)
    ensures
        forall|x: T| #[trigger] (a + b).contains(x) <==> a.contains(x) || b.contains(x),
{
    assert forall|x: T| #[trigger] (a + b).contains(x) <==> a.contains(x) || b.contains(x) by {
        if a.contains(x) {
            let i = choose|i: int| 0 <= i < a.len() && a[i] == x;
            assert((a + b)[i] == x);
        }
        if b.contains(x) {
            let i = choose|i: int| 0 <= i < b.len() && b[i] == x;
            assert((a + b)[a.len() + i] == x);
        }
        if (a + b).contains(x) {
            let i = choose|i: int| 0 <= i < (a + b).len() && (a + b)[i] == x;
            if i < a.len() {
                assert(a[i] == x);
            } else {
                assert(b[i - a.len()] == x);
            }
        }
    }
}

proof fn lemma_concat_no_duplicates<T>(a: Seq<T>, b: Seq<T>)
    requires
        a.no_duplicates(),
        b.no_duplicates(),
        forall|x: T| a.contains(x) ==> !b.contains(x),
    ensures
        (a + b).no_duplicates(),
{
    assert forall|i: int, j: int|
        0 <= i < (a + b).len() && 0 <= j < (a + b).len() && i != j implies (a + b)[i] != (a
        + b)[j] by {
        if i < a.len() && j >= a.len() {
            assert(a.contains(a[i]));
            assert(b.contains(b[j - a.len()]));
        } else if j < a.len() && i >= a.len() {
            assert(a.contains(a[j]));
            assert(b.contains(b[i - a.len()]));
        }
    }
}

proof fn lemma_key_events(codes: Seq<u16>, down: bool)
    ensures
        forall|e: InputEvent| #[trigger]
            key_events(codes, down).contains(e) <==> (exists|c: u16|
                codes.contains(c) && e == (InputEvent::Key { code: c, down: down })),
        codes.no_duplicates() ==> key_events(codes, down).no_duplicates(),
{
    let evs = key_events(codes, down);
    assert forall|e: InputEvent| #[trigger]
        evs.contains(e) <==> (exists|c: u16|
            codes.contains(c) && e == (InputEvent::Key { code: c, down: down })) by {
        if evs.contains(e) {
            let i = choose|i: int| 0 <= i < evs.len() && evs[i] == e;
            assert(codes.contains(codes[i]));
        }
        if exists|c: u16| codes.contains(c) && e == (InputEvent::Key { code: c, down: down }) {
            let c = choose|c: u16|
                codes.contains(c) && e == (InputEvent::Key { code: c, down: down });
            let i = choose|i: int| 0 <= i < codes.len() && codes[i] == c;
            assert(evs[i] == e);
        }
    }
}

proof fn lemma_button_events(ids: Seq<u8>, down: bool)
    ensures
        forall|e: InputEvent| #[trigger]
            button_events(ids, down).contains(e) <==> (exists|b: u8|
                ids.contains(b) && e == (InputEvent::MouseButton { id: b, down: down })),
        ids.no_duplicates() ==> button_events(ids, down).no_duplicates(),
{
    let evs = button_events(ids, down);
    assert forall|e: InputEvent| #[trigger]
        evs.contains(e) <==> (exists|b: u8|
            ids.contains(b) && e == (InputEvent::MouseButton { id: b, down: down })) by {
        if evs.contains(e) {
            let i = choose|i: int| 0 <= i < evs.len() && evs[i] == e;
            assert(ids.contains(ids[i]));
        }
        if exists|b: u8| ids.contains(b) && e == (InputEvent::MouseButton { id: b, down: down }) {
            let b = choose|b: u8|
                ids.contains(b) && e == (InputEvent::MouseButton { id: b, down: down });
            let i = choose|i: int| 0 <= i < ids.len() && ids[i] == b;
            assert(evs[i] == e);
        }
    }
}

/// Edge detection emits each edge once: an event is produced exactly where
/// a key or button newly appears or disappears, and no event is produced
/// twice.
pub proof fn law_each_edge_once(
    held_keys: Seq<u16>,
    held_buttons: Seq<u8>,
    keys: Seq<u16>,
    buttons: Seq<u8>,
)
    requires
        held_keys.no_duplicates(),
        held_buttons.no_duplicates(),
        keys.no_duplicates(),
        buttons.no_duplicates(),
    ensures
        forall|e: InputEvent| #[trigger]
            transition_events(held_keys, held_buttons, keys, buttons).contains(e) <==> event_is_due(
                e,
                held_keys,
                held_buttons,
                keys,
                buttons,
            ),
        transition_events(held_keys, held_buttons, keys, buttons).no_duplicates(),
{
    let kp = without(keys, held_keys);
    let kr = without(held_keys, keys);
    let bp = without(buttons, held_buttons);
    let br = without(held_buttons, buttons);
    lemma_without(keys, held_keys);
    lemma_without(held_keys, keys);
    lemma_without(buttons, held_buttons);
    lemma_without(held_buttons, buttons);
    let a = key_events(kp, true);
    let b = key_events(kr, false);
    let c = button_events(bp, true);
    let d = button_events(br, false);
    lemma_key_events(kp, true);
    lemma_key_events(kr, false);
    lemma_button_events(bp, true);
    lemma_button_events(br, false);
    lemma_concat_contains(a, b);
    lemma_concat_contains(a + b, c);
    lemma_concat_contains(a + b + c, d);
    lemma_concat_no_duplicates(a, b);
    lemma_concat_no_duplicates(a + b, c);
    lemma_concat_no_duplicates(a + b + c, d);
    let all = transition_events(held_keys, held_buttons, keys, buttons);
    assert(all == a + b + c + d);
    assert forall|e: InputEvent| #[trigger]
        all.contains(e) <==> event_is_due(e, held_keys, held_buttons, keys, buttons) by {
        match e {
            InputEvent::Key { code, down } => {
                if event_is_due(e, held_keys, held_buttons, keys, buttons) {
                    if down {
                        assert(kp.contains(code));
                    } else {
                        assert(kr.contains(code));
                    }
                }
            },
            InputEvent::MouseButton { id, down } => {
                if event_is_due(e, held_keys, held_buttons, keys, buttons) {
                    if down {
                        assert(bp.contains(id));
                    } else {
                        assert(br.contains(id));
                    }
                }
            },
        }
    }
}

/// While nothing changes, nothing is emitted.
pub proof fn law_unchanged_is_silent(held_keys: Seq<u16>, held_buttons: Seq<u8>)
    ensures
        transition_events(held_keys, held_buttons, held_keys, held_buttons).len() == 0,
{
    lemma_without(held_keys, held_keys);
    lemma_without(held_buttons, held_buttons);
    let k = without(held_keys, held_keys);
    let b = without(held_buttons, held_buttons);
    if k.len() > 0 {
        assert(k.contains(k[0]));
    }
    if b.len() > 0 {
        assert(b.contains(b[0]));
    }
}

/// A key that is held for one tick and then let go gives one press, then
/// one release, then nothing for as long as it stays released.
pub proof fn law_press_release_once(code: u16)
    ensures
        transition_events(seq![], seq![], seq![code], seq![]) == seq![
            InputEvent::Key { code: code, down: true },
        ],
        transition_events(seq![code], seq![], seq![], seq![]) == seq![
            InputEvent::Key { code: code, down: false },
        ],
        transition_events(seq![], seq![], seq![], seq![]) == Seq::<InputEvent>::empty(),
{
    let none = Seq::<u16>::empty();
    let one = seq![code];
    let nb = Seq::<u8>::empty();
    assert(one.drop_last() =~= none);
    assert(one.last() == code);
    assert(without(none, one) =~= none);
    assert(without(none, none) =~= none);
    assert(without(nb, nb) =~= nb);
    assert(!none.contains(code));
    assert(without(one, none) =~= one);
    assert(transition_events(none, nb, one, nb) =~= seq![
        InputEvent::Key { code: code, down: true },
    ]);
    assert(transition_events(one, nb, none, nb) =~= seq![
        InputEvent::Key { code: code, down: false },
    ]);
    assert(transition_events(none, nb, none, nb) =~= Seq::<InputEvent>::empty());
}

/// What one tick of the discrete engine hands to the output side.
#[derive(Debug)]
pub struct DiscreteTick {
    /// Button bitmask of the virtual pad.
    pub buttons: u16,
    pub left_trigger: bool,
    pub right_trigger: bool,
    /// Key and mouse button events to inject, in order.
    pub events: Vec<InputEvent>,
}

/// Runs the discrete engine for one tick: resolves the table against the
/// state, and moves the held keys and buttons to what is pressed now.
pub fn discrete_tick(table: &Vec<ButtonMapping>, state: &GamepadState, held: &mut HeldInputs) -> (r:
    DiscreteTick)
    ensures
        r.buttons == button_mask(fired_targets(table@, *state)),
        r.left_trigger == fired_targets(table@, *state).contains(MappingTarget::XboxLT),
        r.right_trigger == fired_targets(table@, *state).contains(MappingTarget::XboxRT),
        final(held).keys@ == distinct_keys(fired_targets(table@, *state)),
        final(held).mouse_buttons@ == distinct_buttons(fired_targets(table@, *state)),
        final(held).well_formed(),
        r.events@ == transition_events(
            old(held).keys@,
            old(held).mouse_buttons@,
            final(held).keys@,
            final(held).mouse_buttons@,
        ),
{
    let out = resolve_discrete(table, state);
    let buttons: u16 = out.buttons;
    let left_trigger = out.left_trigger;
    let right_trigger = out.right_trigger;
    let events = held.retarget(out.keys, out.mouse_buttons);
    DiscreteTick { buttons, left_trigger, right_trigger, events }
}

/// Whether a target consumes an axis value.
pub open spec fn takes_axis(t: MappingTarget) -> bool {
    match t {
        MappingTarget::XboxLT => true,
        MappingTarget::XboxRT => true,
        MappingTarget::XboxLS => true,
        MappingTarget::XboxRS => true,
        MappingTarget::MouseMove { .. } => true,
        MappingTarget::MouseScroll { .. } => true,
        _ => false,
    }
}

/// An axis source feeding a target that consumes axis values.
#[derive(Debug, Clone, Copy, PartialEq, Eq, Structural)]
pub struct AxisRoute {
    pub source: PhysicalButton,
    pub target: MappingTarget,
}

/// The routes from `source` to those of `targets` that consume an axis.
pub open spec fn routes_from(source: PhysicalButton, targets: Seq<MappingTarget>) -> Seq<AxisRoute>
    decreases targets.len(),
{
    if targets.len() == 0 {
        Seq::empty()
    } else if takes_axis(targets.last()) {
        routes_from(source, targets.drop_last()).push(
            AxisRoute { source: source, target: targets.last() },
        )
    } else {
        routes_from(source, targets.drop_last())
    }
}

/// The routes of all entries with an axis source, in table order.
pub open spec fn axis_routes_of(table: Seq<ButtonMapping>) -> Seq<AxisRoute>
    decreases table.len(),
{
    if table.len() == 0 {
        Seq::empty()
    } else {
        axis_routes_of(table.drop_last()) + (if table.last().source.spec_is_axis() {
            routes_from(table.last().source, table.last().targets@)
        } else {
            Seq::empty()
        })
    }
}

fn is_axis_target(t: &MappingTarget) -> (r: bool)
    ensures
        r == takes_axis(*t),
{
    match t {
        MappingTarget::XboxLT
        | MappingTarget::XboxRT
        | MappingTarget::XboxLS
        | MappingTarget::XboxRS => true,
        MappingTarget::MouseMove { .. } => true,
        MappingTarget::MouseScroll { .. } => true,
        _ => false,
    }
}

/// Lists, in table order, every pairing of an axis source with a target
/// that consumes its value. The analog side of the engine walks this list
/// once per tick.
pub fn axis_routes(table: &Vec<ButtonMapping>) -> (routes: Vec<AxisRoute>)
    ensures
        routes@ == axis_routes_of(table@),
{
    let mut routes: Vec<AxisRoute> = Vec::new();
    let mut i: usize = 0;
    assert(table@.take(0) =~= Seq::<ButtonMapping>::empty());
    while i < table.len()
        invariant
            i <= table.len(),
            routes@ == axis_routes_of(table@.take(i as int)),
        decreases table.len() - i,
    {
        let ghost done = routes@;
        proof {
            let next = table@.take(i + 1);
            assert(next.drop_last() =~= table@.take(i as int));
            assert(next.last() == table@[i as int]);
        }
        let entry = &table[i];
        if entry.source.is_axis() {
            let mut j: usize = 0;
            assert(entry.targets@.take(0) =~= Seq::<MappingTarget>::empty());
            assert(done + Seq::<AxisRoute>::empty() =~= done);
            while j < entry.targets.len()
                invariant
                    j <= entry.targets.len(),
                    routes@ == done + routes_from(entry.source, entry.targets@.take(j as int)),
                decreases entry.targets.len() - j,
            {
                let ghost inner = routes_from(entry.source, entry.targets@.take(j as int));
                proof {
                    let next = entry.targets@.take(j + 1);
                    assert(next.drop_last() =~= entry.targets@.take(j as int));
                    assert(next.last() == entry.targets@[j as int]);
                }
                if is_axis_target(&entry.targets[j]) {
                    let route = AxisRoute { source: entry.source, target: entry.targets[j] };
                    routes.push(route);
                    assert(routes@ =~= done + inner.push(route));
                }
                j = j + 1;
            }
            assert(entry.targets@.take(entry.targets.len() as int) =~= entry.targets@);
        } else {
            assert(done + Seq::<AxisRoute>::empty() =~= done);
        }
        i = i + 1;
    }
    assert(table@.take(table.len() as int) =~= table@);
    routes
}

/// A jump of this many raw units or more on either axis is a finger that
/// was lifted and put down again, not a movement.
pub const TOUCH_JUMP: i32 = 500;

/// The last touch sample seen.
#[derive(Debug, Clone, Copy, PartialEq, Eq, Structural)]
pub struct TouchTracker {
    pub last_x: u16,
    pub last_y: u16,
    pub last_active: bool,
}

/// What the touchpad did between two samples.
#[derive(Debug, Clone, Copy, PartialEq, Eq, Structural)]
pub struct TouchMotion {
    /// Movement in raw units; zero where there is none to report.
    pub dx: i32,
    pub dy: i32,
    /// The finger is off the pad: any momentum is to be dropped at once.
    pub lifted: bool,
}

/// The movement between the tracked sample and `state`: the difference of
/// the coordinates while the finger stayed down and moved less than
/// `TOUCH_JUMP` on both axes, zero otherwise.
pub open spec fn touch_motion(t: TouchTracker, state: GamepadState) -> TouchMotion {
    let dx = state.touch_x - t.last_x;
    let dy = state.touch_y - t.last_y;
    let moved = state.touch_active && t.last_active && -TOUCH_JUMP < dx < TOUCH_JUMP && -TOUCH_JUMP
        < dy < TOUCH_JUMP;
    TouchMotion {
        dx: if moved { dx as i32 } else { 0 },
        dy: if moved { dy as i32 } else { 0 },
        lifted: !state.touch_active,
    }
}

impl TouchTracker {
    /// No sample seen yet.
    pub fn new() -> (r: Self)
        ensures
            r == (TouchTracker { last_x: 0, last_y: 0, last_active: false }),
    {
        TouchTracker { last_x: 0, last_y: 0, last_active: false }
    }

    /// Takes the next sample and reports the movement since the last one.
    pub fn track(&mut self, state: &GamepadState) -> (m: TouchMotion)
        ensures
            m == touch_motion(*old(self), *state),
            *final(self) == (TouchTracker {
                last_x: state.touch_x,
                last_y: state.touch_y,
                last_active: state.touch_active,
            }),
    {
        let mut dx: i32 = 0;
        let mut dy: i32 = 0;
        if state.touch_active && self.last_active {
            let dx_raw: i32 = state.touch_x as i32 - self.last_x as i32;
            let dy_raw: i32 = state.touch_y as i32 - self.last_y as i32;
            if -TOUCH_JUMP < dx_raw && dx_raw < TOUCH_JUMP && -TOUCH_JUMP < dy_raw && dy_raw
                < TOUCH_JUMP {
                dx = dx_raw;
                dy = dy_raw;
            }
        }
        self.last_x = state.touch_x;
        self.last_y = state.touch_y;
        self.last_active = state.touch_active;
        TouchMotion { dx, dy, lifted: !state.touch_active }
    }
}

/// Flag bits of a synthesised keyboard event.
pub const KEY_FLAG_EXTENDED: u32 = 0x0001;
pub const KEY_FLAG_KEYUP: u32 = 0x0002;
pub const KEY_FLAG_SCANCODE: u32 = 0x0008;

/// Flags of a synthesised mouse button event.
pub const MOUSE_LEFT_DOWN: u32 = 0x0002;
pub const MOUSE_LEFT_UP: u32 = 0x0004;
pub const MOUSE_RIGHT_DOWN: u32 = 0x0008;
pub const MOUSE_RIGHT_UP: u32 = 0x0010;
pub const MOUSE_MIDDLE_DOWN: u32 = 0x0020;
pub const MOUSE_MIDDLE_UP: u32 = 0x0040;

/// The keys that need the extended flag: the navigation block, the
/// Windows and menu keys, and the keypad operators.
pub open spec fn is_extended_key(vk: u16) -> bool {
    (33 <= vk <= 46) || (91 <= vk <= 93) || (106 <= vk <= 111)
}

/// The flags of a keyboard event, as a sum of distinct bits.
pub open spec fn key_flags(vk: u16, down: bool, scancode: u32) -> u32 {
    ((if down { 0 } else { KEY_FLAG_KEYUP as int }) + (if scancode > 0 {
        KEY_FLAG_SCANCODE as int
    } else {
        0
    }) + (if is_extended_key(vk) { KEY_FLAG_EXTENDED as int } else { 0 })) as u32
}

/// Assembles the flags of a keyboard event. `scancode` is what the
/// operating system maps the key to, zero where it knows none.
pub fn key_event_flags(vk: u16, down: bool, scancode: u32) -> (flags: u32)
    ensures
        flags == key_flags(vk, down, scancode),
{
    let mut flags: u32 = if down { 0 } else { KEY_FLAG_KEYUP };
    if scancode > 0 {
        flags = flags + KEY_FLAG_SCANCODE;
    }
    if (vk >= 33 && vk <= 46) || (vk >= 91 && vk <= 93) || (vk >= 106 && vk <= 111) {
        flags = flags + KEY_FLAG_EXTENDED;
    }
    flags
}

/// The flag of a mouse button event: button 0 is the left one, 1 the
/// middle one, 2 the right one.
pub open spec fn mouse_flags(id: u8, down: bool) -> Option<u32> {
    if id == 0 {
        Some(if down { MOUSE_LEFT_DOWN } else { MOUSE_LEFT_UP })
    } else if id == 1 {
        Some(if down { MOUSE_MIDDLE_DOWN } else { MOUSE_MIDDLE_UP })
    } else if id == 2 {
        Some(if down { MOUSE_RIGHT_DOWN } else { MOUSE_RIGHT_UP })
    } else {
        None
    }
}

/// The flag of a mouse button event, or `None` for an id that names no
/// button: such an event is dropped.
pub fn mouse_button_flags(id: u8, down: bool) -> (flags: Option<u32>)
    ensures
        flags == mouse_flags(id, down),
{
    match (id, down) {
        (0, true) => Some(MOUSE_LEFT_DOWN),
        (0, false) => Some(MOUSE_LEFT_UP),
        (1, true) => Some(MOUSE_MIDDLE_DOWN),
        (1, false) => Some(MOUSE_MIDDLE_UP),
        (2, true) => Some(MOUSE_RIGHT_DOWN),
        (2, false) => Some(MOUSE_RIGHT_UP),
        _ => None,
    }
}

} // verus!
