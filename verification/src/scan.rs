//! Recognising a barcode scanner among ordinary key presses.
//!
//! A scanner types like a keyboard, only faster: characters that follow each
//! other in less than `SCAN_GAP_MS` milliseconds belong together, the Return key
//! ends a code. Where the last character came after a pause, what was typed is
//! ordinary typing and gives no code.
use vstd::prelude::*;
use vstd::string::{StrSliceExecFns, StringExecFns};

use crate::text::{
    trim, trimmed, law_trimmed_cuts, law_trimmed_ends, law_trimmed_keeps, law_trimmed_within,
    white_space,
};

verus! {

/// Event under which a recognised code is emitted to the page.
pub const SCAN_EVENT: &'static str = "scan:code";

/// Characters closer together than this many milliseconds come from a scanner.
pub const SCAN_GAP_MS: u128 = 80;

const NANOS_PER_MS: u128 = 1_000_000;

/// Whether a character is printable: control characters are not.
pub open spec fn printable(c: char) -> bool {
    let u = c as u32;
    !(u <= 0x1F) && !(0x7F <= u <= 0x9F)
}

/// Whether a character is printable.
pub fn is_printable(c: char) -> (answer: bool)
    ensures
        answer == printable(c),
{
    let u: u32 = c as u32;
    !(u <= 0x1F) && !(0x7F <= u && u <= 0x9F)
}

/// Whether a key that types this text counts: it types one character, and that
/// character is printable.
pub open spec fn counts(name: Seq<char>) -> bool {
    name.len() == 1 && printable(name[0])
}

/// An input event of the operating system, as far as scanning cares.
pub enum KeyInput {
    /// The Return key was pressed.
    Return,
    /// Another key was pressed; the text it types, where it types one.
    Press(Option<String>),
    /// Anything else: releases, mouse moves, wheel turns.
    Other,
}

/// The mathematical content of a `KeyInput`.
pub enum KeyInputView {
    Return,
    Press(Option<Seq<char>>),
    Other,
}

impl View for KeyInput {
    type V = KeyInputView;

    open spec fn view(&self) -> KeyInputView {
        match self {
            KeyInput::Return => KeyInputView::Return,
            KeyInput::Press(Some(name)) => KeyInputView::Press(Some(name@)),
            KeyInput::Press(None) => KeyInputView::Press(None),
            KeyInput::Other => KeyInputView::Other,
        }
    }
}

/// The characters collected so far, the time of the last one, in nanoseconds of a
/// monotonic clock, and whether it followed the one before it without a pause.
pub struct ScanBuffer {
    buf: String,
    last: u128,
    fast: bool,
}

/// The mathematical content of a `ScanBuffer`.
#[verifier::ext_equal]
pub struct ScanState {
    pub text: Seq<char>,
    pub last: nat,
    pub fast: bool,
}

/// Whole milliseconds between two readings of the clock; a clock that went
/// backwards counts as no time at all.
pub open spec fn elapsed_ms(last: nat, now: nat) -> nat {
    if now <= last {
        0
    } else {
        ((now - last) / 1_000_000) as nat
    }
}

/// Whether a character typed at `now` continues the one typed at `last`.
pub open spec fn is_fast(last: nat, now: nat) -> bool {
    elapsed_ms(last, now) < SCAN_GAP_MS
}

impl ScanState {
    /// The state after one printable character was typed at `now`.
    pub open spec fn typed(self, name: Seq<char>, now: nat) -> ScanState {
        ScanState {
            text: if is_fast(self.last, now) {
                self.text + name
            } else {
                name
            },
            last: now,
            fast: is_fast(self.last, now),
        }
    }

    /// The state after an event at `now`.
    pub open spec fn after(self, key: KeyInputView, now: nat) -> ScanState {
        match key {
            KeyInputView::Return => ScanState {
                text: Seq::empty(),
                last: self.last,
                fast: false,
            },
            KeyInputView::Press(Some(name)) => if counts(name) {
                self.typed(name, now)
            } else {
                self
            },
            _ => self,
        }
    }

    /// The code that an event delivers, if it delivers one: the Return key
    /// delivers what was collected without the white space at its ends, where the
    /// last character came without a pause and something is left.
    pub open spec fn code(self, key: KeyInputView) -> Option<Seq<char>> {
        if key is Return && self.fast && trimmed(self.text).len() > 0 {
            Some(trimmed(self.text))
        } else {
            None
        }
    }

    /// The state after a run of printable characters, each with the time at which
    /// it was typed.
    pub open spec fn after_all(self, typed: Seq<(char, nat)>) -> ScanState
        decreases typed.len(),
    {
        if typed.len() == 0 {
            self
        } else {
            self.after_all(typed.drop_last()).typed(seq![typed.last().0], typed.last().1)
        }
    }

    /// The state after a stream of events, each with the time at which it
    /// happened.
    pub open spec fn after_events(self, events: Seq<(KeyInputView, nat)>) -> ScanState
        decreases events.len(),
    {
        if events.len() == 0 {
            self
        } else {
            self.after_events(events.drop_last()).after(events.last().0, events.last().1)
        }
    }
}

impl View for ScanBuffer {
    type V = ScanState;

    closed spec fn view(&self) -> ScanState {
        ScanState { text: self.buf@, last: self.last as nat, fast: self.fast }
    }
}

impl ScanBuffer {
    /// A buffer that has seen nothing by the time `now`.
    pub fn new(now: u128) -> (scan: ScanBuffer)
        ensures
            scan@ == (ScanState { text: Seq::empty(), last: now as nat, fast: false }),
    {
        ScanBuffer { buf: String::new(), last: now, fast: false }
    }

    /// Takes in one event that happened at `now` and returns the code that it
    /// completes, if any.
    pub fn on_event(&mut self, key: KeyInput, now: u128) -> (code: Option<String>)
        ensures
            final(self)@ == old(self)@.after(key@, now as nat),
            code is Some <==> old(self)@.code(key@) is Some,
            code is Some ==> code->0@ == old(self)@.code(key@)->0,
    {
        match key {
            KeyInput::Return => {
                let fast = self.fast;
                let code = trim(self.buf.as_str());
                self.buf = String::new();
                self.fast = false;
                delivered(fast, code)
            },
            KeyInput::Press(Some(name)) => {
                if name.as_str().unicode_len() == 1 && is_printable(name.as_str().get_char(0)) {
                    let elapsed: u128 = if now <= self.last {
                        0
                    } else {
                        (now - self.last) / NANOS_PER_MS
                    };
                    self.last = now;
                    self.fast = elapsed < SCAN_GAP_MS;
                    if self.fast {
                        self.buf.append(name.as_str());
                    } else {
                        self.buf = name;
                    }
                }
                None
            },
            _ => None,
        }
    }
}

/// The code to deliver where this is left after trimming, and `fast` says whether
/// the last character came without a pause.
pub fn delivered(fast: bool, code: String) -> (reply: Option<String>)
    ensures
        reply == (if fast && code@.len() > 0 {
            Some(code)
        } else {
            None
        }),
{
    if fast && !code.as_str().is_empty() {
        Some(code)
    } else {
        None
    }
}

/// Every character of the run was typed less than `SCAN_GAP_MS` after the one
/// before it.
pub open spec fn is_burst(typed: Seq<(char, nat)>) -> bool {
    forall|i: int|
        #![trigger typed[i]]
        0 < i < typed.len() ==> is_fast(typed[i - 1].1, typed[i].1)
}

/// The characters of a run.
pub open spec fn burst_text(typed: Seq<(char, nat)>) -> Seq<char> {
    typed.map_values(|k: (char, nat)| k.0)
}

/// A burst that starts after a pause is collected whole and alone: whatever was
/// typed before the pause is forgotten.
pub proof fn law_burst_collected(state: ScanState, typed: Seq<(char, nat)>)
    requires
        typed.len() > 0,
        is_burst(typed),
        !is_fast(state.last, typed[0].1),
    ensures
        state.after_all(typed) == (ScanState {
            text: burst_text(typed),
            last: typed.last().1,
            fast: typed.len() > 1,
        }),
    decreases typed.len(),
{
    let init = typed.drop_last();
    assert(burst_text(typed) == burst_text(init) + seq![typed.last().0]);
    if init.len() == 0 {
        assert(state.after_all(init) == state);
        assert(burst_text(typed) == seq![typed.last().0]);
    } else {
        assert(typed[typed.len() - 1] == typed.last());
        assert(init.last() == typed[typed.len() - 2]);
        assert forall|i: int| #![trigger init[i]] 0 < i < init.len() implies is_fast(
            init[i - 1].1,
            init[i].1,
        ) by {
            assert(typed[i] == init[i]);
        }
        law_burst_collected(state, init);
    }
}

/// Typing one run after the other is typing them in one.
pub proof fn law_runs_compose(state: ScanState, head: Seq<(char, nat)>, tail: Seq<(char, nat)>)
    ensures
        state.after_all(head + tail) == state.after_all(head).after_all(tail),
    decreases tail.len(),
{
    if tail.len() == 0 {
        assert(head + tail == head);
    } else {
        assert((head + tail).drop_last() == head + tail.drop_last());
        assert((head + tail).last() == tail.last());
        law_runs_compose(state, head, tail.drop_last());
    }
}

proof fn lemma_last_time(state: ScanState, typed: Seq<(char, nat)>)
    ensures
        state.after_all(typed).last == (if typed.len() == 0 {
            state.last
        } else {
            typed.last().1
        }),
{
}

/// Of everything typed, only the last burst is collected: what came before the
/// last pause is ordinary typing and is dropped.
pub proof fn law_only_last_burst(state: ScanState, typed: Seq<(char, nat)>, k: int)
    requires
        0 <= k < typed.len(),
        !is_fast(
            if k == 0 {
                state.last
            } else {
                typed[k - 1].1
            },
            typed[k].1,
        ),
        is_burst(typed.skip(k)),
    ensures
        state.after_all(typed).text == burst_text(typed.skip(k)),
{
    let head = typed.take(k);
    let tail = typed.skip(k);
    assert(head + tail == typed);
    law_runs_compose(state, head, tail);
    lemma_last_time(state, head);
    law_burst_collected(state.after_all(head), tail);
}

/// Whether a stream of events goes on without the Return key.
pub open spec fn without_return(events: Seq<(KeyInputView, nat)>) -> bool {
    forall|i: int| 0 <= i < events.len() ==> (#[trigger] events[i]).0 !is Return
}

/// The printable characters typed in a stream of events, with their times.
pub open spec fn characters(events: Seq<(KeyInputView, nat)>) -> Seq<(char, nat)>
    decreases events.len(),
{
    if events.len() == 0 {
        Seq::empty()
    } else {
        let before = characters(events.drop_last());
        match events.last().0 {
            KeyInputView::Press(Some(name)) => if counts(name) {
                before.push((name[0], events.last().1))
            } else {
                before
            },
            _ => before,
        }
    }
}

/// Up to the next Return key only printable characters matter: keys that type
/// nothing, several characters or a control character, releases and the mouse
/// leave no trace, and do not move the clock either.
pub proof fn law_only_characters_matter(state: ScanState, events: Seq<(KeyInputView, nat)>)
    requires
        without_return(events),
    ensures
        state.after_events(events) == state.after_all(characters(events)),
    decreases events.len(),
{
    if events.len() > 0 {
        let init = events.drop_last();
        assert(without_return(init)) by {
            assert forall|i: int| 0 <= i < init.len() implies (#[trigger] init[i]).0 !is Return by {
                assert(events[i] == init[i]);
            }
        }
        law_only_characters_matter(state, init);
        assert(events[events.len() - 1] == events.last());
        match events.last().0 {
            KeyInputView::Press(Some(name)) => {
                if counts(name) {
                    assert(characters(events).drop_last() == characters(init));
                    assert(seq![name[0]] == name);
                }
            },
            _ => {},
        }
    }
}

/// The longest run at the end in which all neighbours are close together.
pub open spec fn last_burst(typed: Seq<(char, nat)>) -> Seq<(char, nat)>
    decreases typed.len(),
{
    if typed.len() <= 1 {
        typed
    } else if is_fast(typed[typed.len() - 2].1, typed.last().1) {
        last_burst(typed.drop_last()).push(typed.last())
    } else {
        seq![typed.last()]
    }
}

/// The last burst is a burst at the end of what was typed, and no burst at the
/// end is longer.
pub proof fn law_last_burst_longest(typed: Seq<(char, nat)>, k: int)
    requires
        0 <= k <= typed.len(),
    ensures
        is_burst(last_burst(typed)),
        last_burst(typed).len() <= typed.len(),
        last_burst(typed) == typed.skip(typed.len() - last_burst(typed).len()),
        is_burst(typed.skip(k)) ==> typed.len() - k <= last_burst(typed).len(),
    decreases typed.len(),
{
    if typed.len() > 1 {
        let n = typed.len() as int;
        let init = typed.drop_last();
        if is_fast(typed[n - 2].1, typed.last().1) {
            let shorter = last_burst(init);
            let burst = last_burst(typed);
            law_last_burst_longest(init, if k < n {
                k
            } else {
                0
            });
            lemma_last_burst_nonempty(init);
            assert(shorter.last() == init.last());
            assert(burst == typed.skip(n - burst.len()));
            assert forall|i: int| #![trigger burst[i]] 0 < i < burst.len() implies is_fast(
                burst[i - 1].1,
                burst[i].1,
            ) by {
                assert(burst[i - 1] == shorter[i - 1]);
                if i < shorter.len() {
                    assert(burst[i] == shorter[i]);
                }
            }
            if is_burst(typed.skip(k)) && k < n {
                let tail = init.skip(k);
                assert forall|i: int| #![trigger tail[i]] 0 < i < tail.len() implies is_fast(
                    tail[i - 1].1,
                    tail[i].1,
                ) by {
                    assert(typed.skip(k)[i] == tail[i]);
                    assert(typed.skip(k)[i - 1] == tail[i - 1]);
                }
            }
        } else {
            assert(last_burst(typed) == typed.skip(n - 1));
            if is_burst(typed.skip(k)) && k < n - 1 {
                let tail = typed.skip(k);
                assert(tail[tail.len() - 1] == typed.last());
                assert(tail[tail.len() - 2] == typed[n - 2]);
            }
        }
    } else {
        assert(typed == typed.skip(0));
    }
}

proof fn lemma_last_burst_nonempty(typed: Seq<(char, nat)>)
    requires
        typed.len() > 0,
    ensures
        last_burst(typed).len() > 0,
        last_burst(typed).last() == typed.last(),
{
}

/// From an empty buffer on, exactly the last burst is collected.
pub proof fn law_last_burst_collected(state: ScanState, typed: Seq<(char, nat)>)
    requires
        state.text.len() == 0,
    ensures
        state.after_all(typed).text == burst_text(last_burst(typed)),
    decreases typed.len(),
{
    if typed.len() == 0 {
        assert(burst_text(last_burst(typed)) == state.text);
    } else {
        let init = typed.drop_last();
        let c = typed.last();
        law_last_burst_collected(state, init);
        lemma_last_time(state, init);
        if typed.len() == 1 {
            assert(state.after_all(init) == state);
            assert(state.text + seq![c.0] == seq![c.0]);
            assert(burst_text(last_burst(typed)) == seq![c.0]);
        } else if is_fast(typed[typed.len() - 2].1, c.1) {
            assert(init.last() == typed[typed.len() - 2]);
            assert(burst_text(last_burst(typed)) == burst_text(last_burst(init)) + seq![c.0]);
        } else {
            assert(init.last() == typed[typed.len() - 2]);
            assert(burst_text(last_burst(typed)) == seq![c.0]);
        }
    }
}

/// A burst in an empty buffer is collected whole, also where it starts without a
/// pause.
pub proof fn law_burst_into_empty(state: ScanState, typed: Seq<(char, nat)>)
    requires
        state.text.len() == 0,
        is_burst(typed),
    ensures
        state.after_all(typed).text == burst_text(typed),
{
    law_last_burst_collected(state, typed);
    assert(typed.skip(0) == typed);
    law_last_burst_longest(typed, 0);
}

/// Whether the last character of a run came without a pause, after the character
/// before it or, where it is the only one, after the time `last`.
pub open spec fn ends_fast(last: nat, typed: Seq<(char, nat)>) -> bool {
    typed.len() > 0 && is_fast(
        if typed.len() == 1 {
            last
        } else {
            typed[typed.len() - 2].1
        },
        typed.last().1,
    )
}

proof fn lemma_ends_fast(state: ScanState, typed: Seq<(char, nat)>)
    requires
        typed.len() > 0,
    ensures
        state.after_all(typed).fast == ends_fast(state.last, typed),
{
    lemma_last_time(state, typed.drop_last());
}

/// What the Return key delivers after a stream of events: the last burst of
/// printable characters since the Return key before it, trimmed, where its last
/// character came without a pause and trimming leaves something; nothing
/// otherwise.
pub proof fn law_return_delivers(state: ScanState, events: Seq<(KeyInputView, nat)>)
    requires
        state.text.len() == 0,
        without_return(events),
    ensures
        ({
            let typed = characters(events);
            let run = trimmed(burst_text(last_burst(typed)));
            state.after_events(events).code(KeyInputView::Return) == (if ends_fast(
                state.last,
                typed,
            ) && run.len() > 0 {
                Some(run)
            } else {
                None
            })
        }),
{
    let typed = characters(events);
    law_only_characters_matter(state, events);
    law_last_burst_collected(state, typed);
    if typed.len() > 0 {
        lemma_ends_fast(state, typed);
    }
}

/// A last burst of two characters or more is always delivered, where trimming
/// leaves something of it.
pub proof fn law_burst_of_two_delivered(state: ScanState, events: Seq<(KeyInputView, nat)>)
    requires
        state.text.len() == 0,
        without_return(events),
        last_burst(characters(events)).len() >= 2,
        trimmed(burst_text(last_burst(characters(events)))).len() > 0,
    ensures
        state.after_events(events).code(KeyInputView::Return) == Some(
            trimmed(burst_text(last_burst(characters(events)))),
        ),
{
    law_return_delivers(state, events);
}

/// Ordinary typing is never delivered: where the last character before the Return
/// key came after a pause, nothing comes of it, whatever was typed before.
pub proof fn law_slow_typing_ignored(state: ScanState, events: Seq<(KeyInputView, nat)>)
    requires
        without_return(events),
        characters(events).len() > 0,
        !ends_fast(state.last, characters(events)),
    ensures
        state.after_events(events).code(KeyInputView::Return) is None,
{
    law_only_characters_matter(state, events);
    lemma_ends_fast(state, characters(events));
}

/// A scan is delivered as it was typed: a burst of two characters or more after a
/// pause, free of white space at its ends, comes out of the Return key unchanged,
/// and nothing of it stays behind.
pub proof fn law_scan_delivered(
    state: ScanState,
    events: Seq<(KeyInputView, nat)>,
    now: nat,
)
    requires
        without_return(events),
        characters(events).len() >= 2,
        is_burst(characters(events)),
        !is_fast(state.last, characters(events)[0].1),
        !white_space(characters(events)[0].0),
        !white_space(characters(events).last().0),
    ensures
        state.after_events(events).code(KeyInputView::Return) == Some(
            burst_text(characters(events)),
        ),
        state.after_events(events).after(KeyInputView::Return, now).text.len() == 0,
{
    let typed = characters(events);
    law_only_characters_matter(state, events);
    law_burst_collected(state, typed);
    assert(burst_text(typed)[0] == typed[0].0);
    assert(burst_text(typed).last() == typed.last().0);
    law_trimmed_keeps(burst_text(typed));
}

/// A character typed after a pause starts over, whatever was collected before.
pub proof fn law_slow_key_starts_over(a: ScanState, b: ScanState, name: Seq<char>, now: nat)
    requires
        counts(name),
        !is_fast(a.last, now),
        !is_fast(b.last, now),
    ensures
        a.after(KeyInputView::Press(Some(name)), now) == b.after(
            KeyInputView::Press(Some(name)),
            now,
        ),
        a.after(KeyInputView::Press(Some(name)), now).text == name,
{
}

/// Only the Return key delivers a code, only where the last character came without
/// a pause; a delivered code is never empty, and it neither starts nor ends with
/// white space.
pub proof fn law_code_clean(state: ScanState, key: KeyInputView)
    ensures
        state.code(key) is Some ==> {
            let code = state.code(key)->0;
            &&& key is Return
            &&& state.fast
            &&& code.len() > 0
            &&& !white_space(code[0])
            &&& !white_space(code.last())
        },
{
    law_trimmed_ends(state.text);
}

/// No code is delivered twice: a second Return key directly after the first one
/// delivers nothing.
pub proof fn law_code_once(state: ScanState, now: nat)
    ensures
        state.after(KeyInputView::Return, now).code(KeyInputView::Return) is None,
{
}

/// Whether a text holds printable characters alone.
pub open spec fn all_printable(text: Seq<char>) -> bool {
    forall|i: int| 0 <= i < text.len() ==> printable(#[trigger] text[i])
}

/// No event puts a control character into the buffer, and none is delivered.
pub proof fn law_only_printable_collected(state: ScanState, key: KeyInputView, now: nat)
    requires
        all_printable(state.text),
    ensures
        all_printable(state.after(key, now).text),
        state.code(key) is Some ==> all_printable(state.code(key)->0),
{
    if state.code(key) is Some {
        law_trimmed_within(state.text);
        let code = state.code(key)->0;
        assert forall|i: int| 0 <= i < code.len() implies printable(#[trigger] code[i]) by {
            let lo = choose|lo: int|
                0 <= lo && lo + code.len() <= state.text.len() && code == #[trigger] state.text.subrange(lo, lo + code.len());
            assert(code[i] == state.text[lo + i]);
        }
    }
}

/// Every key that types exactly one character other than a control character
/// (U+0000 to U+001F, U+007F to U+009F) is collected, whatever the character and
/// whatever came before: the character is the last one of the buffer and its time
/// is remembered. Less than 80 milliseconds after the character before it, it
/// joins what was collected; otherwise it starts over.
pub proof fn law_character_collected(state: ScanState, c: char, now: nat)
    requires
        !(c as u32 <= 0x1F),
        !(0x7F <= c as u32 <= 0x9F),
    ensures
        ({
            let next = state.after(KeyInputView::Press(Some(seq![c])), now);
            &&& next.text.len() > 0
            &&& next.text.last() == c
            &&& next.last == now
            &&& now < state.last + 80_000_000 ==> next.text == state.text.push(c) && next.fast
            &&& now >= state.last + 80_000_000 ==> next.text == seq![c] && !next.fast
        }),
{
    let name = seq![c];
    assert(name.len() == 1 && name[0] == c);
    assert(state.text + name == state.text.push(c));
}

/// Nothing but the Return key and keys that type one printable character leaves a
/// trace: the buffer, its clock and its flag stay as they are.
pub proof fn law_other_keys_ignored(state: ScanState, key: KeyInputView, now: nat)
    requires
        key is Other || key == KeyInputView::Press(None) || (key matches KeyInputView::Press(
            Some(name),
        ) && (name.len() != 1 || name[0] as u32 <= 0x1F || 0x7F <= name[0] as u32 <= 0x9F)),
    ensures
        state.after(key, now) == state,
{
}

/// The Return key empties the buffer, whether or not it delivers a code, and
/// leaves the clock alone.
pub proof fn law_return_empties(state: ScanState, now: nat)
    ensures
        state.after(KeyInputView::Return, now).text == Seq::<char>::empty(),
        state.after(KeyInputView::Return, now).last == state.last,
        !state.after(KeyInputView::Return, now).fast,
{
}

/// The Return key delivers if and only if the last character came without a pause
/// and the buffer holds more than white space. What it delivers is the buffer
/// itself, but for white space in front of it and behind it.
pub proof fn law_code_is_the_buffer(state: ScanState)
    ensures
        state.code(KeyInputView::Return) is Some <==> state.fast && exists|i: int|
            0 <= i < state.text.len() && !white_space(#[trigger] state.text[i]),
        state.code(KeyInputView::Return) matches Some(code) ==> exists|lo: int, hi: int|
            0 <= lo < hi <= state.text.len() && code == #[trigger] state.text.subrange(lo, hi) && (
            forall|i: int|
                0 <= i < lo || hi <= i < state.text.len() ==> white_space(
                    #[trigger] state.text[i],
                )),
{
    let text = state.text;
    law_trimmed_cuts(text);
    let (lo, hi) = choose|lo: int, hi: int|
        0 <= lo <= hi <= text.len() && trimmed(text) == #[trigger] text.subrange(lo, hi) && (forall|
            i: int,
        | 0 <= i < lo || hi <= i < text.len() ==> white_space(#[trigger] text[i]));
    assert(trimmed(text).len() == hi - lo);
    if trimmed(text).len() > 0 {
        law_trimmed_ends(text);
        assert(trimmed(text)[0] == text[lo]);
        assert(!white_space(text[lo]));
    }
}

/// The key presses of a text, each character with its time.
pub open spec fn presses(text: Seq<char>, times: Seq<nat>) -> Seq<(KeyInputView, nat)> {
    Seq::new(text.len(), |i: int| (KeyInputView::Press(Some(seq![text[i]])), times[i]))
}

/// A scanner's text comes out as it went in: two characters or more, none of them
/// a control character, each less than 80 milliseconds after the one before it and
/// the first one after a pause, are what the Return key delivers, character by
/// character, where neither end is white space.
pub proof fn law_scanned_text_delivered(state: ScanState, text: Seq<char>, times: Seq<nat>)
    requires
        text.len() >= 2,
        times.len() == text.len(),
        forall|i: int|
            0 <= i < text.len() ==> (#[trigger] text[i]) as u32 >= 0x20 && !(0x7F <= text[i] as u32
                <= 0x9F),
        times[0] >= state.last + 80_000_000,
        forall|i: int|
            #![trigger times[i]]
            0 < i < times.len() ==> times[i] < times[i - 1] + 80_000_000,
        !white_space(text[0]),
        !white_space(text.last()),
    ensures
        state.after_events(presses(text, times)).code(KeyInputView::Return) == Some(text),
{
    lemma_presses_collected(state, text, times);
    law_trimmed_keeps(text);
}

proof fn lemma_presses_collected(state: ScanState, text: Seq<char>, times: Seq<nat>)
    requires
        text.len() >= 1,
        times.len() == text.len(),
        forall|i: int|
            0 <= i < text.len() ==> (#[trigger] text[i]) as u32 >= 0x20 && !(0x7F <= text[i] as u32
                <= 0x9F),
        times[0] >= state.last + 80_000_000,
        forall|i: int|
            #![trigger times[i]]
            0 < i < times.len() ==> times[i] < times[i - 1] + 80_000_000,
    ensures
        ({
            let next = state.after_events(presses(text, times));
            &&& next.text == text
            &&& next.last == times.last()
            &&& next.fast == (text.len() > 1)
        }),
    decreases text.len(),
{
    let events = presses(text, times);
    let n = text.len() as int;
    assert(events.last() == (KeyInputView::Press(Some(seq![text[n - 1]])), times[n - 1]));
    assert(text[n - 1] == text.last());
    if n == 1 {
        assert(state.after_events(events.drop_last()) == state);
        law_character_collected(state, text[0], times[0]);
        assert(seq![text[0]] == text);
    } else {
        let init = text.drop_last();
        let before = times.drop_last();
        assert(events.drop_last() == presses(init, before));
        assert forall|i: int| 0 <= i < init.len() implies (#[trigger] init[i]) as u32 >= 0x20 && !(
        0x7F <= init[i] as u32 <= 0x9F) by {
            assert(init[i] == text[i]);
        }
        assert forall|i: int| #![trigger before[i]] 0 < i < before.len() implies before[i]
            < before[i - 1] + 80_000_000 by {
            assert(before[i] == times[i]);
        }
        lemma_presses_collected(state, init, before);
        assert(before.last() == times[n - 2]);
        let earlier = state.after_events(events.drop_last());
        law_character_collected(earlier, text[n - 1], times[n - 1]);
        assert(init.push(text[n - 1]) == text);
    }
}

/// A new buffer is empty, and its clock stands at the time it was made.
pub proof fn law_new_buffer(now: u128, scan: ScanBuffer)
    requires
        call_ensures(ScanBuffer::new, (now,), scan),
    ensures
        scan@.text.len() == 0,
        scan@.last == now,
        !scan@.fast,
{
}

/// Taking in a key that types one character other than a control character
/// collects that character, whatever it is, and delivers nothing yet.
pub proof fn law_key_collected(
    scan: &mut ScanBuffer,
    name: String,
    c: char,
    now: u128,
    code: Option<String>,
)
    requires
        call_ensures(ScanBuffer::on_event, (scan, KeyInput::Press(Some(name)), now), code),
        name@ == seq![c],
        !(c as u32 <= 0x1F),
        !(0x7F <= c as u32 <= 0x9F),
    ensures
        code is None,
        final(scan)@.text.len() > 0,
        final(scan)@.text.last() == c,
        final(scan)@.last == now,
        now < old(scan)@.last + 80_000_000 ==> final(scan)@.text == old(scan)@.text.push(c)
            && final(scan)@.fast,
        now >= old(scan)@.last + 80_000_000 ==> final(scan)@.text == seq![c] && !final(scan)@.fast,
{
    law_character_collected(old(scan)@, c, now as nat);
}

/// Taking in anything but the Return key and a key that types one printable
/// character changes nothing and delivers nothing.
pub proof fn law_key_ignored(scan: &mut ScanBuffer, key: KeyInput, now: u128, code: Option<String>)
    requires
        call_ensures(ScanBuffer::on_event, (scan, key, now), code),
        key is Other || (key matches KeyInput::Press(typed) && (typed matches Some(name) ==> (
        name@.len() != 1 || name@[0] as u32 <= 0x1F || 0x7F <= name@[0] as u32 <= 0x9F))),
    ensures
        code is None,
        final(scan)@ == old(scan)@,
{
    law_other_keys_ignored(old(scan)@, key@, now as nat);
}

/// Taking in the Return key delivers what was collected, but for white space at
/// its ends, if the last character came without a pause and there is more than
/// white space. The buffer is empty afterwards.
pub proof fn law_return_key(scan: &mut ScanBuffer, now: u128, code: Option<String>)
    requires
        call_ensures(ScanBuffer::on_event, (scan, KeyInput::Return, now), code),
    ensures
        final(scan)@.text.len() == 0,
        final(scan)@.last == old(scan)@.last,
        !final(scan)@.fast,
        code is Some <==> old(scan)@.fast && exists|i: int|
            0 <= i < old(scan)@.text.len() && !white_space(#[trigger] old(scan)@.text[i]),
        code matches Some(text) ==> exists|lo: int, hi: int|
            0 <= lo < hi <= old(scan)@.text.len() && text@ == #[trigger] old(scan)@.text.subrange(
                lo,
                hi,
            ) && !white_space(text@[0]) && !white_space(text@.last()) && (forall|i: int|
                0 <= i < lo || hi <= i < old(scan)@.text.len() ==> white_space(
                    #[trigger] old(scan)@.text[i],
                )),
{
    law_code_is_the_buffer(old(scan)@);
    law_code_clean(old(scan)@, KeyInputView::Return);
}

/// The printable characters are ASCII from the blank to the tilde, and everything
/// from the no-break space on.
pub proof fn law_printable_range(c: char, answer: bool)
    requires
        is_printable.ensures((c,), answer),
    ensures
        answer <==> 0x20 <= c as u32 <= 0x7E || c as u32 >= 0xA0,
{
}

/// What is delivered is the code itself: every code that is not empty, after a
/// character without a pause, and none otherwise.
pub proof fn law_delivered_whole(fast: bool, code: String, reply: Option<String>)
    requires
        delivered.ensures((fast, code), reply),
    ensures
        reply is Some <==> fast && code@.len() > 0,
        reply matches Some(text) ==> text@ == code@,
{
}

} // verus!
