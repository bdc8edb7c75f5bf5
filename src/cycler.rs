use vstd::prelude::*;

verus! {

/// Code of the first character in the cycle (space).
pub const FIRST_CHAR: u8 = 32;

/// Code of the last character in the cycle (tilde).
pub const LAST_CHAR: u8 = 126;

/// Number of characters in the cycle.
pub const CYCLE_LEN: u8 = 95;

/// Number of characters that the preview shows after the current one.
pub const PREVIEW_LEN: u8 = 5;

/// Relies on `String::push`: the character is appended at the end.
#[verifier::external_body]
fn push_char(s: &mut String, c: char)
    ensures
        final(s)@ == old(s)@.push(c),
{
    s.push(c)
}

/// The decimal digit `d`.
pub open spec fn digit(d: int) -> char {
    (48 + d) as char
}

/// The decimal numeral of `n`, without leading zeros.
pub open spec fn decimal(n: nat) -> Seq<char>
    decreases n,
{
    if n < 10 {
        seq![digit(n as int)]
    } else {
        decimal(n / 10).push(digit((n % 10) as int))
    }
}

/// How a character is shown on the display: the space, the one whitespace character in
/// the cycle, shows as a middle dot so that it can be seen.
pub open spec fn shown(c: char) -> char {
    if c == ' ' {
        '·'
    } else {
        c
    }
}

/// The code `n` brought back into the cycle, for an `n` at most one cycle past its end.
pub open spec fn wrapped(n: int) -> int {
    if n > LAST_CHAR {
        n - CYCLE_LEN
    } else {
        n
    }
}

/// The code that follows `code` in the cycle: tilde is followed by space.
pub open spec fn next_code(code: int) -> int {
    if code == LAST_CHAR {
        FIRST_CHAR as int
    } else {
        code + 1
    }
}

/// The line that describes the character with `code`: the character as shown, its code,
/// and its place in the cycle.
pub open spec fn display_text(code: int) -> Seq<char> {
    "Char: '"@ + seq![shown(code as char)] + "' ASCII: "@ + decimal(code as nat) + " ("@
        + decimal((code - (FIRST_CHAR - 1)) as nat) + "/95)"@
}

/// The characters that follow `code` in the cycle, as shown.
pub open spec fn preview(code: int) -> Seq<char> {
    Seq::new(PREVIEW_LEN as nat, |k: int| shown(wrapped(code + k + 1) as char))
}

fn digit_char(d: u8) -> (r: char)
    requires
        d < 10,
    ensures
        r == digit(d as int),
{
    (48u8 + d) as char
}

/// Appends the decimal numeral of `n` to `s`.
fn push_decimal(s: &mut String, n: u8)
    ensures
        final(s)@ == old(s)@ + decimal(n as nat),
{
    reveal_with_fuel(decimal, 3);
    if n >= 100 {
        assert(decimal(n as nat) == seq![digit(n as int / 100), digit(n as int / 10 % 10), digit(n as int % 10)]);
        push_char(s, digit_char(n / 100));
        push_char(s, digit_char(n / 10 % 10));
        push_char(s, digit_char(n % 10));
    } else if n >= 10 {
        assert(decimal(n as nat) == seq![digit(n as int / 10), digit(n as int % 10)]);
        push_char(s, digit_char(n / 10));
        push_char(s, digit_char(n % 10));
    } else {
        push_char(s, digit_char(n));
    }
}

/// Steps through the printable ASCII characters, from space to tilde and round again.
pub struct CharacterCycler {
    current_char: u8,
}

impl CharacterCycler {
    #[verifier::type_invariant]
    closed spec fn in_cycle(&self) -> bool {
        FIRST_CHAR <= self.current_char <= LAST_CHAR
    }

    /// Code of the current character.
    pub closed spec fn code(&self) -> int {
        self.current_char as int
    }

    /// A cycler that starts at the space.
    pub fn new() -> (r: CharacterCycler)
        ensures
            r.code() == FIRST_CHAR,
    {
        CharacterCycler { current_char: FIRST_CHAR }
    }

    /// The current character, which is always printable ASCII.
    pub fn get_current_char(&self) -> (r: char)
        ensures
            r == self.code() as char,
            FIRST_CHAR <= r as u32 <= LAST_CHAR,
    {
        proof {
            use_type_invariant(self);
        }
        self.current_char as char
    }

    /// Moves to the next character; after tilde comes space.
    pub fn advance(&mut self)
        ensures
            final(self).code() == next_code(old(self).code()),
    {
        proof {
            use_type_invariant(&*self);
        }
        if self.current_char == LAST_CHAR {
            self.current_char = FIRST_CHAR;
        } else {
            self.current_char = self.current_char + 1;
        }
    }

    /// A line that names the current character, its code and its place in the cycle.
    pub fn get_display_string(&self) -> (r: String)
        ensures
            r@ == display_text(self.code()),
    {
        proof {
            use_type_invariant(self);
        }
        let code = self.current_char;
        let current = code as char;
        let mut s = String::new();
        s.append("Char: '");
        push_char(&mut s, if current == ' ' { '·' } else { current });
        s.append("' ASCII: ");
        push_decimal(&mut s, code);
        s.append(" (");
        push_decimal(&mut s, code - (FIRST_CHAR - 1));
        s.append("/95)");
        s
    }

    /// The characters that come after the current one, as the display shows them.
    pub fn preview_text(&self) -> (r: String)
        ensures
            r@ == preview(self.code()),
    {
        proof {
            use_type_invariant(self);
        }
        let mut s = String::new();
        let mut offset: u8 = 1;
        while offset <= PREVIEW_LEN
            invariant
                1 <= offset <= PREVIEW_LEN + 1,
                FIRST_CHAR <= self.current_char <= LAST_CHAR,
                s@ == preview(self.code()).take(offset - 1),
            decreases PREVIEW_LEN + 1 - offset,
        {
            let ahead = self.current_char + offset;
            let next = if ahead > LAST_CHAR {
                ahead - CYCLE_LEN
            } else {
                ahead
            } as char;
            push_char(&mut s, if next == ' ' { '·' } else { next });
            assert(preview(self.code()).take(offset as int) =~= preview(self.code()).take(
                offset - 1,
            ).push(shown(next)));
            offset = offset + 1;
        }
        assert(preview(self.code()).take(PREVIEW_LEN as int) =~= preview(self.code()));
        s
    }
}

} // verus!
