//! Raw input reports of the mouse: which device node delivers them, and
//! which buttons a report says were pressed.
//!
//! A report is a short run of bytes, one of which holds the buttons as a
//! bit mask: bit `n` stands for button `n + 1`. A button counts as pressed
//! when its bit is set in a report and was clear in the report before.

use vstd::prelude::*;
use vstd::string::*;

verus! {

/// Whether `word` stands in `text` at position `at`.
pub open spec fn occurs_at(text: Seq<u8>, word: Seq<u8>, at: int) -> bool {
    &&& 0 <= at
    &&& at + word.len() <= text.len()
    &&& text.subrange(at, at + word.len()) == word
}

/// Whether `word` stands somewhere in `text`.
pub open spec fn occurs(text: Seq<u8>, word: Seq<u8>) -> bool {
    exists|at: int| occurs_at(text, word, at)
}

/// Whether `word` stands in `text` at position `at`.
fn matches_at(text: &[u8], word: &[u8], at: usize) -> (found: bool)
    requires
        at + word@.len() <= text@.len(),
    ensures
        found == occurs_at(text@, word@, at as int),
{
    let length: usize = text.len();
    let mut k: usize = 0;
    while k < word.len()
        invariant
            k <= word@.len(),
            at + word@.len() <= text@.len(),
            length == text@.len(),
            forall|j: int| 0 <= j < k ==> text@[at + j] == word@[j],
        decreases word@.len() - k,
    {
        if text[at + k] != word[k] {
            assert(text@.subrange(at as int, at + word@.len())[k as int] != word@[k as int]);
            return false;
        }
        k = k + 1;
    }
    assert(text@.subrange(at as int, at + word@.len()) =~= word@);
    true
}

/// Whether `word` stands somewhere in `text`.
pub fn contains_bytes(text: &[u8], word: &[u8]) -> (found: bool)
    ensures
        found == occurs(text@, word@),
{
    if word.len() > text.len() {
        return false;
    }
    let last: usize = text.len() - word.len();
    let mut at: usize = 0;
    loop
        invariant
            last == text@.len() - word@.len(),
            at <= last,
            forall|earlier: int| 0 <= earlier < at ==> !occurs_at(text@, word@, earlier),
        decreases last - at,
    {
        if matches_at(text, word, at) {
            return true;
        }
        if at == last {
            return false;
        }
        at = at + 1;
    }
}

/// Whether a device node with this name delivers the mouse's raw reports:
/// the name holds both the maker's name and the kind of the node.
pub open spec fn names_mouse_node(name: Seq<u8>) -> bool {
    occurs(name, "Logitech".spec_bytes()) && occurs(name, "hidraw".spec_bytes())
}

/// Whether a device node with this name delivers the mouse's raw reports.
pub fn is_mouse_node(name: &str) -> (yes: bool)
    ensures
        yes == names_mouse_node(name.spec_bytes()),
{
    let bytes = name.as_bytes();
    contains_bytes(bytes, "Logitech".as_bytes()) && contains_bytes(bytes, "hidraw".as_bytes())
}

/// The byte of a report that holds the buttons: the second byte, or the
/// only byte of a report of one byte.
pub open spec fn report_buttons(report: Seq<u8>) -> u8
    recommends
        report.len() > 0,
{
    if report.len() > 1 {
        report[1]
    } else {
        report[0]
    }
}

/// Whether the button with bit `bit` went down between two reports.
pub open spec fn went_down(buttons: u8, previous: u8, bit: u8) -> bool {
    (buttons & !previous) & (1u8 << bit) != 0
}

/// The numbers of the buttons with a bit below `bits` that went down, in
/// rising order. Bit `n` stands for button `n + 1`.
pub open spec fn pressed_below(buttons: u8, previous: u8, bits: nat) -> Seq<u16>
    decreases bits,
{
    if bits == 0 {
        Seq::empty()
    } else {
        let below = pressed_below(buttons, previous, (bits - 1) as nat);
        if went_down(buttons, previous, (bits - 1) as u8) {
            below.push(bits as u16)
        } else {
            below
        }
    }
}

/// The numbers of the buttons that went down between two reports.
pub open spec fn newly_pressed(buttons: u8, previous: u8) -> Seq<u16> {
    pressed_below(buttons, previous, 8)
}

/// Follows the raw reports of the mouse.
#[derive(Debug, Clone, Copy, PartialEq, Eq, Structural)]
pub struct ButtonListener {
    /// The buttons as the last report held them.
    pub previous: u8,
}

impl ButtonListener {
    /// A listener that has seen no report: no button is held.
    pub fn new() -> (listener: ButtonListener)
        ensures
            listener.previous == 0,
    {
        ButtonListener { previous: 0 }
    }

    /// Takes a report and tells which buttons it says were pressed, by
    /// number, in rising order. An empty report says nothing.
    pub fn on_report(&mut self, report: &[u8]) -> (pressed: Vec<u16>)
        ensures
            report@.len() == 0 ==> *final(self) == *old(self) && pressed@ == Seq::<u16>::empty(),
            report@.len() > 0 ==> final(self).previous == report_buttons(report@) && pressed@
                == newly_pressed(report_buttons(report@), old(self).previous),
    {
        let mut pressed: Vec<u16> = Vec::new();
        if report.len() == 0 {
            return pressed;
        }
        let buttons: u8 = if report.len() > 1 {
            report[1]
        } else {
            report[0]
        };
        let previous: u8 = self.previous;
        let down: u8 = buttons & !previous;
        self.previous = buttons;
        let mut bit: u8 = 0;
        while bit < 8
            invariant
                bit <= 8,
                down == buttons & !previous,
                pressed@ == pressed_below(buttons, previous, bit as nat),
            decreases 8 - bit,
        {
            if down & (1u8 << bit) != 0 {
                pressed.push(bit as u16 + 1);
            }
            bit = bit + 1;
        }
        pressed
    }
}

/// What `pressed_below` holds: exactly the numbers of the buttons with a
/// bit below `bits` that went down, each once, in rising order.
pub proof fn lemma_pressed_below(buttons: u8, previous: u8, bits: nat)
    requires
        bits <= 8,
    ensures
        forall|number: u16|
            pressed_below(buttons, previous, bits).contains(number) <==> 1 <= number <= bits
                && went_down(buttons, previous, (number - 1) as u8),
        forall|i: int, j: int|
            0 <= i < j < pressed_below(buttons, previous, bits).len() ==> pressed_below(
                buttons,
                previous,
                bits,
            )[i] < pressed_below(buttons, previous, bits)[j],
    decreases bits,
{
    let all = pressed_below(buttons, previous, bits);
    if bits == 0 {
    } else {
        let below = pressed_below(buttons, previous, (bits - 1) as nat);
        lemma_pressed_below(buttons, previous, (bits - 1) as nat);
        assert forall|i: int| 0 <= i < below.len() implies below[i] < bits by {
            assert(below.contains(below[i]));
        }
        if went_down(buttons, previous, (bits - 1) as u8) {
            assert(all == below.push(bits as u16));
            assert(all[below.len() as int] == bits as u16);
            assert forall|number: u16| all.contains(number) <==> 1 <= number <= bits && went_down(
                buttons,
                previous,
                (number - 1) as u8,
            ) by {
                if all.contains(number) {
                    let at = choose|at: int| 0 <= at < all.len() && all[at] == number;
                    if at < below.len() {
                        assert(below[at] == number);
                        assert(below.contains(number));
                    }
                }
                if 1 <= number <= bits && went_down(buttons, previous, (number - 1) as u8) {
                    if number == bits {
                        assert(all[below.len() as int] == number);
                    } else {
                        assert(below.contains(number));
                        let at = choose|at: int| 0 <= at < below.len() && below[at] == number;
                        assert(all[at] == number);
                    }
                }
            }
        } else {
            assert(all == below);
        }
    }
}

/// A report tells a button as pressed exactly when the button's bit is set
/// in it and was clear in the report before; the buttons are told by their
/// numbers from one to eight, each once, in rising order.
pub proof fn lemma_newly_pressed(buttons: u8, previous: u8)
    ensures
        forall|number: u16|
            newly_pressed(buttons, previous).contains(number) <==> 1 <= number <= 8 && went_down(
                buttons,
                previous,
                (number - 1) as u8,
            ),
        forall|i: int, j: int|
            0 <= i < j < newly_pressed(buttons, previous).len() ==> newly_pressed(
                buttons,
                previous,
            )[i] < newly_pressed(buttons, previous)[j],
{
    lemma_pressed_below(buttons, previous, 8);
}

} // verus!
