use vstd::prelude::*;

use crate::code::{all_ascii_digits, spec_all_ascii_digits, spec_is_ascii_digit, KEYPAD_CODE_LEN};

verus! {

/// Number of keypad buttons wired to the port expander (GA0–GA7 and GB0).
pub const KEY_COUNT: u8 = 9;

/// Value reported for the keypad when the expander cannot be read: every
/// button released (the inputs are active low).
pub const ALL_RELEASED: u16 = 0x01FF;

/// Bit `b` of a keypad word.
pub open spec fn key_bit(word: u16, b: u16) -> bool {
    (word >> b) & 1u16 == 1u16
}

/// The 9-bit keypad word made of the two expander ports: bits 0–7 from
/// GPIOA, bit 8 from bit 0 of GPIOB.
pub open spec fn spec_gpio_word(gpioa: u8, gpiob: u8) -> u16 {
    (((gpiob & 1u8) as u16) << 8u16) | (gpioa as u16)
}

/// Turns the outcome of reading the expander's GPIOA/GPIOB registers into
/// the 9-bit keypad word: `Some((gpioa, gpiob))` when the read succeeded,
/// `None` when the bus reported an error (then all buttons read released).
/// Active low: a clear bit is a pressed button.
pub fn read_mcp_buttons(read: Option<(u8, u8)>) -> (word: u16)
    ensures
        word == match read {
            Some((a, b)) => spec_gpio_word(a, b),
            None => ALL_RELEASED,
        },
        word <= ALL_RELEASED,
        read matches Some((a, b)) ==> forall|i: u16|
            i < 8 ==> (key_bit(word, i) <==> #[trigger] (((a as u16) >> i) & 1u16) == 1u16),
        read matches Some((a, b)) ==> (key_bit(word, 8) <==> b & 1u8 == 1u8),
{
    match read {
        Some((gpioa, gpiob)) => {
            let a = gpioa as u16;
            let b = (gpiob & 0x01) as u16;
            assert((gpiob & 0x01u8) <= 1u8) by (bit_vector);
            let w = (b << 8u16) | a;
            assert(w <= 0x01FF) by (bit_vector)
                requires
                    a <= 0xff,
                    b <= 1,
                    w == (b << 8u16) | a,
            ;
            assert forall|i: u16| i < 8 implies (key_bit(w, i) <==> #[trigger] ((a >> i) & 1u16) == 1u16) by {
                assert(((w >> i) & 1u16) == ((a >> i) & 1u16)) by (bit_vector)
                    requires
                        a <= 0xff,
                        b <= 1,
                        w == (b << 8u16) | a,
                        i < 8,
                ;
            }
            assert(((w >> 8u16) & 1u16) == b) by (bit_vector)
                requires
                    a <= 0xff,
                    b <= 1,
                    w == (b << 8u16) | a,
            ;
            assert((gpiob & 1u8) == 1u8 <==> b == 1u16) by (bit_vector)
                requires b == (gpiob & 0x01) as u16;
            w
        },
        None => ALL_RELEASED,
    }
}

/// The character of keypad button `bit`: GA0–GA7 are '1'–'8', GB0 is '9',
/// anything else '?'.
pub open spec fn spec_key_digit(bit: u8) -> char {
    if bit == 0 {
        '1'
    } else if bit == 1 {
        '2'
    } else if bit == 2 {
        '3'
    } else if bit == 3 {
        '4'
    } else if bit == 4 {
        '5'
    } else if bit == 5 {
        '6'
    } else if bit == 6 {
        '7'
    } else if bit == 7 {
        '8'
    } else if bit == 8 {
        '9'
    } else {
        '?'
    }
}

/// Maps a keypad GPIO bit index to the digit it stands for:
/// GA0–GA7 give '1'–'8', GB0 gives '9', anything else '?'.
pub fn bit_to_digit(bit: u8) -> (c: char)
    ensures
        c == spec_key_digit(bit),
        bit < KEY_COUNT ==> c as u32 == '1' as u32 + bit,
        bit >= KEY_COUNT ==> c == '?',
{
    match bit {
        0 => '1',
        1 => '2',
        2 => '3',
        3 => '4',
        4 => '5',
        5 => '6',
        6 => '7',
        7 => '8',
        8 => '9',
        _ => '?',
    }
}

} // verus!

verus! {

/// Lowest keypad bit at or above `from` that is set in `presses`.
pub open spec fn spec_first_key_from(presses: u16, from: nat) -> Option<u8>
    decreases KEY_COUNT - from,
{
    if from >= KEY_COUNT {
        None
    } else if key_bit(presses, from as u16) {
        Some(from as u8)
    } else {
        spec_first_key_from(presses, from + 1)
    }
}

/// The first (lowest-numbered) keypad button set in `presses`, if any.
pub open spec fn spec_first_key(presses: u16) -> Option<u8> {
    spec_first_key_from(presses, 0)
}

proof fn lemma_first_key_from_props(presses: u16, from: nat)
    requires
        from <= KEY_COUNT,
    ensures
        match spec_first_key_from(presses, from) {
            Some(b) => from <= b < KEY_COUNT && key_bit(presses, b as u16) && forall|j: u16|
                from <= j < b ==> !#[trigger] key_bit(presses, j),
            None => forall|j: u16| from <= j < KEY_COUNT ==> !#[trigger] key_bit(presses, j),
        },
    decreases KEY_COUNT - from,
{
    if from < KEY_COUNT {
        lemma_first_key_from_props(presses, from + 1);
    }
}

/// The buttons that went from released to pressed between two readings
/// (inputs are active low, so a press clears a bit).
pub open spec fn spec_new_presses(prev: u16, current: u16) -> u16 {
    prev & !current
}

/// Buttons newly pressed since the previous reading.
pub fn newly_pressed(prev: u16, current: u16) -> (presses: u16)
    ensures
        presses == spec_new_presses(prev, current),
        forall|b: u16|
            b < 16 ==> (#[trigger] key_bit(presses, b) <==> (key_bit(prev, b) && !key_bit(current, b))),
{
    let p = prev & !current;
    assert forall|b: u16| b < 16 implies (#[trigger] key_bit(p, b) <==> (key_bit(prev, b) && !key_bit(current, b))) by {
        assert(((p >> b) & 1u16 == 1u16) <==> (((prev >> b) & 1u16 == 1u16) && !((current >> b) & 1u16 == 1u16))) by (bit_vector)
            requires
                p == prev & !current,
                b < 16,
        ;
    }
    p
}

/// The lowest-numbered keypad button (bit 0 to 8) set in `presses`; only
/// the first one is handled per poll.
pub fn first_pressed_key(presses: u16) -> (key: Option<u8>)
    ensures
        key == spec_first_key(presses),
        match key {
            Some(b) => b < KEY_COUNT && key_bit(presses, b as u16) && forall|j: u16|
                j < b ==> !#[trigger] key_bit(presses, j),
            None => forall|j: u16| j < KEY_COUNT ==> !#[trigger] key_bit(presses, j),
        },
{
    proof {
        lemma_first_key_from_props(presses, 0);
    }
    let mut bit: u8 = 0;
    while bit < KEY_COUNT
        invariant
            bit <= KEY_COUNT,
            spec_first_key_from(presses, bit as nat) == spec_first_key(presses),
        decreases KEY_COUNT - bit,
    {
        if (presses >> (bit as u16)) & 1 == 1 {
            proof {
                lemma_first_key_from_props(presses, 0);
            }
            return Some(bit);
        }
        bit = bit + 1;
    }
    None
}

} // verus!

verus! {

/// Where an entered code stands after a key press.
#[derive(PartialEq, Eq, Structural, Clone, Copy, Debug)]
pub enum CodeStatus {
    /// Fewer than seven digits so far.
    Incomplete,
    /// Seven characters entered, all digits: the unlock command is sent.
    Accepted,
    /// Seven characters entered, not all digits: "Invalid code" is shown.
    Rejected,
}

/// What one handled key press produced.
pub struct KeyPress {
    /// The character of the pressed key.
    pub digit: char,
    /// The code entered so far, including this key (what the display shows).
    pub code: String,
    /// Whether this press completed the code, and how it was judged.
    pub status: CodeStatus,
}

/// Abstract state of the keypad reader.
pub struct KeypadView {
    /// The last keypad word read.
    pub prev_gpio: u16,
    /// The digits entered so far.
    pub code: Seq<char>,
    /// Whether a code is being typed (the camera is then not used).
    pub active: bool,
}

/// Keypad entry: remembers the last reading, collects digits of newly
/// pressed keys, and judges the code once seven characters are in.
pub struct Keypad {
    prev_gpio: u16,
    entered_code: String,
    in_keypad_mode: bool,
}

/// `c` is one of the keypad characters '1'–'9'.
pub open spec fn spec_is_key_char(c: char) -> bool {
    '1' <= c && c <= '9'
}

/// The keypad invariant on the abstract state: fewer than seven digits
/// pending, each one of '1'–'9', and keypad mode on exactly while some
/// digit is pending.
pub open spec fn spec_keypad_inv(s: KeypadView) -> bool {
    &&& s.code.len() < KEYPAD_CODE_LEN
    &&& s.active == (s.code.len() > 0)
    &&& forall|i: int| 0 <= i < s.code.len() ==> #[trigger] spec_is_key_char(s.code[i])
}

/// The abstract outcome of a key press: (digit, code shown, status).
pub open spec fn spec_press_view(p: Option<KeyPress>) -> Option<(char, Seq<char>, CodeStatus)> {
    match p {
        Some(k) => Some((k.digit, k.code@, k.status)),
        None => None,
    }
}

/// One poll of the keypad: the state after reading `current` and the key
/// press it yields, if any.
pub open spec fn spec_poll(s: KeypadView, current: u16) -> (KeypadView, Option<(char, Seq<char>, CodeStatus)>) {
    match spec_first_key(spec_new_presses(s.prev_gpio, current)) {
        None => (KeypadView { prev_gpio: current, ..s }, None),
        Some(b) => {
            let d = spec_key_digit(b);
            let code = s.code.push(d);
            if code.len() >= KEYPAD_CODE_LEN {
                let status = if spec_all_ascii_digits(code) {
                    CodeStatus::Accepted
                } else {
                    CodeStatus::Rejected
                };
                (
                    KeypadView { prev_gpio: current, code: Seq::empty(), active: false },
                    Some((d, code, status)),
                )
            } else {
                (
                    KeypadView { prev_gpio: current, code, active: true },
                    Some((d, code, CodeStatus::Incomplete)),
                )
            }
        },
    }
}

/// `String::push`: appends one character at the end of the string.
#[verifier::external_body]
fn string_push(s: &mut String, c: char)
    ensures
        final(s)@ == old(s)@.push(c),
{
    s.push(c)
}

impl View for Keypad {
    type V = KeypadView;

    closed spec fn view(&self) -> KeypadView {
        KeypadView {
            prev_gpio: self.prev_gpio,
            code: self.entered_code@,
            active: self.in_keypad_mode,
        }
    }
}

impl Keypad {
    /// The keypad invariant: fewer than seven digits pending, each one of
    /// '1'–'9', and keypad mode on exactly while some digit is pending.
    pub open spec fn wf(&self) -> bool {
        spec_keypad_inv(self@)
    }

    /// A keypad reader whose first reading is `initial_gpio`, with no code
    /// entered.
    pub fn new(initial_gpio: u16) -> (k: Keypad)
        ensures
            k.wf(),
            k@.prev_gpio == initial_gpio,
            k@.code == Seq::<char>::empty(),
            !k@.active,
    {
        Keypad { prev_gpio: initial_gpio, entered_code: String::new(), in_keypad_mode: false }
    }

    /// The last keypad word read.
    pub fn prev_gpio(&self) -> (w: u16)
        ensures
            w == self@.prev_gpio,
    {
        self.prev_gpio
    }

    /// The digits entered so far.
    pub fn entered_code(&self) -> (code: &str)
        ensures
            code@ == self@.code,
    {
        self.entered_code.as_str()
    }

    /// Whether a code is being typed; while it is, the camera is not used.
    pub fn in_keypad_mode(&self) -> (active: bool)
        ensures
            active == self@.active,
    {
        self.in_keypad_mode
    }

    /// Handles a new keypad reading: only the lowest newly pressed key is
    /// taken; its digit is appended, and once seven characters are in the
    /// code is judged and cleared.
    pub fn poll(&mut self, current: u16) -> (press: Option<KeyPress>)
        requires
            old(self).wf(),
        ensures
            final(self).wf(),
            (final(self)@, spec_press_view(press)) == spec_poll(old(self)@, current),
            final(self)@.prev_gpio == current,
            press is None ==> final(self)@.code == old(self)@.code && final(self)@.active
                == old(self)@.active,
            press matches Some(p) ==> p.code@ == old(self)@.code.push(p.digit),
            press matches Some(p) ==> '1' <= p.digit && p.digit <= '9',
            press matches Some(p) ==> (p.status == CodeStatus::Incomplete <==> p.code@.len() < 7),
            press matches Some(p) ==> p.status != CodeStatus::Rejected,
            press matches Some(p) ==> (p.status == CodeStatus::Incomplete ==> final(self)@.code
                == p.code@ && final(self)@.active),
            press matches Some(p) ==> (p.status != CodeStatus::Incomplete ==> p.code@.len() == 7
                && final(self)@.code.len() == 0 && !final(self)@.active),
    {
        proof {
            lemma_poll_stores_what_it_shows(self@, current);
        }
        let presses = newly_pressed(self.prev_gpio, current);
        self.prev_gpio = current;
        match first_pressed_key(presses) {
            None => None,
            Some(bit) => {
                self.in_keypad_mode = true;
                let digit = bit_to_digit(bit);
                string_push(&mut self.entered_code, digit);
                let shown = self.entered_code.clone();
                if self.entered_code.as_str().unicode_len() >= KEYPAD_CODE_LEN {
                    let valid = all_ascii_digits(self.entered_code.as_str());
                    let status = if valid {
                        CodeStatus::Accepted
                    } else {
                        CodeStatus::Rejected
                    };
                    self.entered_code = String::new();
                    self.in_keypad_mode = false;
                    Some(KeyPress { digit, code: shown, status })
                } else {
                    Some(KeyPress { digit, code: shown, status: CodeStatus::Incomplete })
                }
            },
        }
    }
}

} // verus!

verus! {

/// Every poll keeps the keypad invariant.
pub proof fn lemma_poll_keeps_invariant(s: KeypadView, current: u16)
    requires
        spec_keypad_inv(s),
    ensures
        spec_keypad_inv(spec_poll(s, current).0),
{
    if let Some(b) = spec_first_key(spec_new_presses(s.prev_gpio, current)) {
        lemma_first_key_from_props(spec_new_presses(s.prev_gpio, current), 0);
        let code = s.code.push(spec_key_digit(b));
        assert forall|i: int| 0 <= i < code.len() implies #[trigger] spec_is_key_char(code[i]) by {
            if i < s.code.len() {
                assert(spec_is_key_char(s.code[i]));
            }
        }
    }
}

/// Keypad keys only ever produce the digits '1'–'9', so a code completed
/// on the keypad is always accepted, never rejected.
pub proof fn lemma_complete_keypad_code_accepted(s: KeypadView, current: u16)
    requires
        spec_keypad_inv(s),
    ensures
        spec_poll(s, current).1 matches Some((d, code, status)) ==> (code.len() == KEYPAD_CODE_LEN
            <==> status == CodeStatus::Accepted),
        spec_poll(s, current).1 matches Some((d, code, status)) ==> status != CodeStatus::Rejected,
{
    if let Some(b) = spec_first_key(spec_new_presses(s.prev_gpio, current)) {
        lemma_first_key_from_props(spec_new_presses(s.prev_gpio, current), 0);
        let code = s.code.push(spec_key_digit(b));
        assert forall|i: int| 0 <= i < code.len() implies #[trigger] spec_is_ascii_digit(code[i]) by {
            if i < s.code.len() {
                assert(spec_is_key_char(s.code[i]));
            }
        }
    }
}

/// A key that stays held down is taken only once: reading the same word
/// again presses nothing and changes nothing.
pub proof fn lemma_held_key_not_repeated(s: KeypadView)
    ensures
        spec_poll(s, s.prev_gpio) == (s, Option::<(char, Seq<char>, CodeStatus)>::None),
{
    let g = s.prev_gpio;
    let p = spec_new_presses(g, g);
    assert(p == 0u16) by (bit_vector)
        requires p == g & !g;
    lemma_first_key_from_props(p, 0);
    if let Some(b) = spec_first_key(p) {
        assert(key_bit(p, b as u16));
        assert(!key_bit(0u16, b as u16)) by (bit_vector)
            requires b < 9;
    }
}

/// A failed read of the expander reads as every button released, so it
/// never registers a key press.
pub proof fn lemma_failed_read_presses_nothing(s: KeypadView)
    ensures
        spec_poll(s, ALL_RELEASED).1 is None,
        spec_poll(s, ALL_RELEASED).0 == (KeypadView { prev_gpio: ALL_RELEASED, ..s }),
{
    let g = s.prev_gpio;
    let p = spec_new_presses(g, ALL_RELEASED);
    lemma_first_key_from_props(p, 0);
    if let Some(b) = spec_first_key(p) {
        let b16 = b as u16;
        assert(!key_bit(p, b16)) by (bit_vector)
            requires
                p == g & !0x01FFu16,
                b16 < 9,
        ;
    }
}

} // verus!

verus! {

/// Pressing button `b` alone, from a keypad with every button released,
/// types that button's digit.
pub proof fn lemma_single_press_types_its_digit(s: KeypadView, b: u8)
    requires
        spec_keypad_inv(s),
        s.prev_gpio == ALL_RELEASED,
        b < KEY_COUNT,
    ensures
        ({
            let current = ALL_RELEASED & !(1u16 << (b as u16));
            let d = spec_key_digit(b);
            &&& spec_poll(s, current).1 matches Some((digit, code, _))
            &&& digit == d
            &&& code == s.code.push(d)
            &&& spec_poll(s, current).0.prev_gpio == current
        }),
{
    let b16 = b as u16;
    let current = ALL_RELEASED & !(1u16 << b16);
    let p = spec_new_presses(ALL_RELEASED, current);
    assert(p == (1u16 << b16)) by (bit_vector)
        requires
            p == 0x01FFu16 & !current,
            current == 0x01FFu16 & !(1u16 << b16),
            b16 < 9,
    ;
    assert forall|j: u16| j < 16 implies (#[trigger] key_bit(p, j) <==> j == b16) by {
        assert(((p >> j) & 1u16 == 1u16) <==> j == b16) by (bit_vector)
            requires
                p == (1u16 << b16),
                b16 < 9,
                j < 16,
        ;
    }
    lemma_first_key_from_props(p, 0);
    assert(key_bit(p, b16));
}

} // verus!

verus! {

/// What one poll does, stated on its own terms: a poll yields a key press
/// exactly when some button 0–8 went from released to pressed; the press
/// carries the digit ('1' + bit) of the lowest such button; the code it
/// shows is the old code with that digit appended; a press that does not
/// complete the code stores exactly the code it shows and stays in keypad
/// mode; the seventh digit completes the code, which is then accepted and
/// cleared.
pub proof fn lemma_poll_stores_what_it_shows(s: KeypadView, current: u16)
    requires
        spec_keypad_inv(s),
    ensures
        ({
            let presses = s.prev_gpio & !current;
            let (next, out) = spec_poll(s, current);
            &&& next.prev_gpio == current
            &&& out is None <==> forall|j: u16| j < 9 ==> !#[trigger] key_bit(presses, j)
            &&& out is None ==> next.code == s.code && next.active == s.active
            &&& out matches Some((d, code, status)) ==> {
                &&& exists|b: u16|
                    b < 9 && #[trigger] key_bit(presses, b) && (forall|j: u16|
                        j < b ==> !#[trigger] key_bit(presses, j)) && d as u32 == '1' as u32 + b
                &&& '1' <= d && d <= '9'
                &&& code == s.code.push(d)
                &&& (status == CodeStatus::Incomplete <==> code.len() < 7)
                &&& status == CodeStatus::Incomplete ==> next.code == code && next.active
                &&& status != CodeStatus::Incomplete ==> code.len() == 7 && status
                    == CodeStatus::Accepted && next.code.len() == 0 && !next.active
            }
        }),
{
    let presses = spec_new_presses(s.prev_gpio, current);
    lemma_first_key_from_props(presses, 0);
    lemma_complete_keypad_code_accepted(s, current);
    if let Some(b) = spec_first_key(presses) {
        let b16 = b as u16;
        assert(key_bit(presses, b16));
        assert(spec_key_digit(b) as u32 == '1' as u32 + b16);
    }
}

} // verus!
